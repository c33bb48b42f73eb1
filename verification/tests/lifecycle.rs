//! Listener lifecycle, one-time initialization, teardown, the control
//! handle and the loader registry.

use yew_material::dialog::{
    DialogCommand, DialogProps, HandleError, LinkState, MatDialog, WeakComponentLink,
    action_from_event,
};
use yew_material::host::{ElementKind, EventError};
use yew_material::list_item::{
    ListItemProps, MatListItem, RequestSelectedDetail, RequestSelectedSource,
    parse_request_selected_detail,
};
use yew_material::registry::LoaderRegistry;
use yew_material::switch::{MatSwitch, SwitchProps};
use yew_material::textfield::{MatTextField, TextFieldProps, ValidityTransform};

#[test]
fn registry_registers_each_kind_once() {
    let mut registry = LoaderRegistry::new();
    assert!(!registry.is_loaded(ElementKind::Switch));
    let (_, attempt1) = MatSwitch::create(
        SwitchProps { classes: String::new(), checked: false, disabled: false },
        &mut registry,
    );
    let (_, attempt2) = MatSwitch::create(
        SwitchProps { classes: String::new(), checked: true, disabled: true },
        &mut registry,
    );
    // two independent instances, exactly one underlying attempt
    assert!(attempt1);
    assert!(!attempt2);
    assert!(registry.is_loaded(ElementKind::Switch));
    // a different kind still gets its own first attempt
    let (_, attempt3) = MatDialog::create(DialogProps::default(), &mut registry);
    assert!(attempt3);
}

#[test]
fn listener_installed_on_first_render_only() {
    let mut registry = LoaderRegistry::new();
    let (mut sw, _) = MatSwitch::create(
        SwitchProps { classes: String::new(), checked: true, disabled: false },
        &mut registry,
    );
    sw.host_mounted();
    let e1 = sw.rendered(true);
    assert!(e1.install_change_listener);
    assert!(e1.set_checked);
    assert_eq!(sw.installs, 1);
    let e2 = sw.rendered(false);
    assert!(!e2.install_change_listener);
    assert_eq!(sw.installs, 1);
}

#[test]
fn rerender_with_changed_props_keeps_listener() {
    let mut registry = LoaderRegistry::new();
    let (mut sw, _) = MatSwitch::create(
        SwitchProps { classes: String::new(), checked: false, disabled: false },
        &mut registry,
    );
    sw.host_mounted();
    sw.rendered(true);
    let listener_before = sw.change_listener;
    // a non-lifecycle field changes; re-render must not reinstall
    let render = sw.change(SwitchProps { classes: String::new(), checked: true, disabled: true });
    assert!(render);
    let e = sw.rendered(false);
    assert!(!e.install_change_listener);
    assert!(e.set_checked);
    assert_eq!(sw.change_listener, listener_before);
    assert_eq!(sw.installs, 1);
}

#[test]
fn event_after_teardown_invokes_nothing() {
    let mut registry = LoaderRegistry::new();
    let (mut sw, _) = MatSwitch::create(
        SwitchProps { classes: String::new(), checked: false, disabled: false },
        &mut registry,
    );
    sw.host_mounted();
    sw.rendered(true);
    assert_eq!(sw.deliver_change(true), Some(true));
    sw.destroy();
    assert_eq!(sw.deliver_change(true), None);
    assert_eq!(sw.deliver_change(false), None);
}

#[test]
fn dialog_installs_four_listeners_once() {
    let mut registry = LoaderRegistry::new();
    let (mut dlg, _) = MatDialog::create(DialogProps::default(), &mut registry);
    dlg.host_mounted();
    let e1 = dlg.rendered(true);
    assert!(e1.install_opening && e1.install_opened && e1.install_closing && e1.install_closed);
    assert_eq!(dlg.installs, 4);
    let e2 = dlg.rendered(false);
    assert!(!e2.install_opening && !e2.install_opened && !e2.install_closing && !e2.install_closed);
    assert_eq!(dlg.installs, 4);
}

#[test]
fn dialog_closing_payload_is_the_action() {
    let mut registry = LoaderRegistry::new();
    let (mut dlg, _) = MatDialog::create(DialogProps::default(), &mut registry);
    dlg.host_mounted();
    dlg.rendered(true);
    let action = "accept".to_string();
    assert_eq!(dlg.deliver_closing(Some(&action)), Ok(Some("accept".to_string())));
    // a payload without the action field is malformed and fails fast
    assert_eq!(dlg.deliver_closing(None), Err(EventError::MalformedPayload));
    dlg.destroy();
    // after teardown nothing is invoked, even on a malformed payload
    assert_eq!(dlg.deliver_closing(None), Ok(None));
    assert_eq!(dlg.deliver_closed(Some(&action)), Ok(None));
}

#[test]
fn action_from_event_rejects_missing_field() {
    let action = "close".to_string();
    assert_eq!(action_from_event(Some(&action)), Ok("close".to_string()));
    assert_eq!(action_from_event(None), Err(EventError::MalformedPayload));
}

#[test]
fn handle_before_render_fails_loudly() {
    let link = WeakComponentLink::new();
    assert_eq!(link.focus(), Err(HandleError::Unbound));
    assert_eq!(link.show(), Err(HandleError::Unbound));

    let mut link = WeakComponentLink::new();
    link.bind();
    // bound, but no render has completed yet
    assert_eq!(link.state, LinkState::Bound { host_rendered: false });
    assert_eq!(link.focus(), Err(HandleError::NotRendered));
    assert_eq!(link.blur(), Err(HandleError::NotRendered));
    assert_eq!(link.close(), Err(HandleError::NotRendered));

    link.notify_rendered();
    assert_eq!(link.focus(), Ok(DialogCommand::Focus));
    assert_eq!(link.blur(), Ok(DialogCommand::Blur));
    assert_eq!(link.show(), Ok(DialogCommand::Show));
    assert_eq!(link.close(), Ok(DialogCommand::Close));

    link.clear();
    assert_eq!(link.show(), Err(HandleError::Unbound));
}

#[test]
fn textfield_one_time_initialization_is_never_rerun() {
    let mut registry = LoaderRegistry::new();
    let props = TextFieldProps {
        validity_transform: Some(ValidityTransform),
        value: "abc".to_string(),
        ..Default::default()
    };
    let (mut tf, _) = MatTextField::create(props, &mut registry);
    tf.host_mounted();
    let e1 = tf.rendered(true);
    assert!(e1.install_validity_transform);
    assert!(e1.install_input_listener);
    assert_eq!(e1.set_type, "text");
    assert_eq!(e1.set_value, "abc");
    assert!(tf.validity_transform_installed);
    // re-render from changed props: no reinstall of anything one-time
    let props2 = TextFieldProps {
        validity_transform: Some(ValidityTransform),
        value: "abcd".to_string(),
        ..Default::default()
    };
    tf.change(props2);
    let e2 = tf.rendered(false);
    assert!(!e2.install_validity_transform);
    assert!(!e2.install_input_listener);
    assert_eq!(e2.set_value, "abcd");
    assert_eq!(tf.installs, 1);
}

#[test]
fn textfield_input_after_teardown_invokes_nothing() {
    let mut registry = LoaderRegistry::new();
    let (mut tf, _) = MatTextField::create(TextFieldProps::default(), &mut registry);
    tf.host_mounted();
    tf.rendered(true);
    let v = "typed".to_string();
    assert_eq!(tf.deliver_input(&v), Some("typed".to_string()));
    tf.destroy();
    assert_eq!(tf.deliver_input(&v), None);
}

#[test]
fn request_selected_detail_parses_both_sources() {
    let interaction = "interaction".to_string();
    let property = "property".to_string();
    assert_eq!(
        parse_request_selected_detail(Some(true), Some(&interaction)),
        Ok(RequestSelectedDetail { selected: true, source: RequestSelectedSource::Interaction })
    );
    assert_eq!(
        parse_request_selected_detail(Some(false), Some(&property)),
        Ok(RequestSelectedDetail { selected: false, source: RequestSelectedSource::Property })
    );
}

#[test]
fn request_selected_detail_rejects_malformed_payloads() {
    let junk = "gesture".to_string();
    assert_eq!(
        parse_request_selected_detail(Some(true), Some(&junk)),
        Err(EventError::MalformedPayload)
    );
    assert_eq!(
        parse_request_selected_detail(None, Some(&junk)),
        Err(EventError::MalformedPayload)
    );
    assert_eq!(parse_request_selected_detail(Some(true), None), Err(EventError::MalformedPayload));
}

#[test]
fn list_item_event_after_teardown_invokes_nothing() {
    let mut registry = LoaderRegistry::new();
    let (mut li, _) = MatListItem::create(ListItemProps::default(), &mut registry);
    li.host_mounted();
    let installed = li.rendered(true);
    assert!(installed);
    let interaction = "interaction".to_string();
    assert_eq!(
        li.deliver_request_selected(Some(true), Some(&interaction)),
        Ok(Some(RequestSelectedDetail {
            selected: true,
            source: RequestSelectedSource::Interaction
        }))
    );
    li.destroy();
    assert_eq!(li.deliver_request_selected(Some(true), Some(&interaction)), Ok(None));
    // after teardown even a malformed payload reaches no parser and no callback
    assert_eq!(li.deliver_request_selected(None, None), Ok(None));
}
