//! Attribute projection: flags, strings, numeric sentinels, tag names.

use yew_material::host::{AttrName, Attribute, ElementKind};
use yew_material::circular_progress::{CircularProgressProps, MatCircularProgress};
use yew_material::dialog::{DialogProps, MatDialog};
use yew_material::icon_button::{IconButtonProps, MatIconButton};
use yew_material::linear_progress::{LinearProgressProps, MatLinearProgress};
use yew_material::list_item::{ListItemProps, MatListItem};
use yew_material::registry::LoaderRegistry;
use yew_material::switch::{MatSwitch, SwitchProps};
use yew_material::textfield::{MatTextField, TextFieldProps};

fn attr_value<'a>(attrs: &'a [Attribute], name: AttrName) -> Option<&'a str> {
    attrs.iter().find(|a| a.name == name).map(|a| a.value.as_str())
}

#[test]
fn tag_names_match_the_element_vocabulary() {
    assert_eq!(ElementKind::CircularProgress.tag_name(), "mwc-circular-progress");
    assert_eq!(ElementKind::Dialog.tag_name(), "mwc-dialog");
    assert_eq!(ElementKind::IconButton.tag_name(), "mwc-icon-button");
    assert_eq!(ElementKind::LinearProgress.tag_name(), "mwc-linear-progress");
    assert_eq!(ElementKind::ListItem.tag_name(), "mwc-list-item");
    assert_eq!(ElementKind::Switch.tag_name(), "mwc-switch");
    assert_eq!(ElementKind::TextField.tag_name(), "mwc-textfield");
}

#[test]
fn attribute_names_keep_their_dom_casing() {
    assert_eq!(AttrName::HideActions.dom_name(), "hideActions");
    assert_eq!(AttrName::ScrimClickAction.dom_name(), "scrimClickAction");
    assert_eq!(AttrName::MaxLength.dom_name(), "maxlength");
    assert_eq!(AttrName::ValidateOnInitialRender.dom_name(), "validateOnInitialRender");
    assert_eq!(AttrName::MultipleGraphics.dom_name(), "multipleGraphics");
    assert_eq!(AttrName::Tabindex.dom_name(), "tabindex");
}

#[test]
fn unset_flag_produces_no_attribute() {
    let mut registry = LoaderRegistry::new();
    let props = SwitchProps { classes: String::new(), checked: false, disabled: false };
    let (sw, _) = MatSwitch::create(props, &mut registry);
    let d = sw.view();
    assert_eq!(d.tag, ElementKind::Switch);
    assert_eq!(attr_value(&d.attrs, AttrName::Disabled), None);
    // never the literal "false"
    assert!(d.attrs.iter().all(|a| a.value != "false"));
}

#[test]
fn set_flag_is_present_with_empty_value() {
    let mut registry = LoaderRegistry::new();
    let props = SwitchProps { classes: String::new(), checked: false, disabled: true };
    let (sw, _) = MatSwitch::create(props, &mut registry);
    let d = sw.view();
    assert_eq!(attr_value(&d.attrs, AttrName::Disabled), Some(""));
}

#[test]
fn rendering_twice_with_same_value_is_identical() {
    let mut registry = LoaderRegistry::new();
    for disabled in [false, true] {
        let props = SwitchProps { classes: "a b".to_string(), checked: true, disabled };
        let (sw, _) = MatSwitch::create(props, &mut registry);
        let d1 = sw.view();
        let d2 = sw.view();
        assert_eq!(d1.attrs, d2.attrs);
        assert_eq!(d1.tag, d2.tag);
        assert_eq!(d1.has_children, d2.has_children);
    }
}

#[test]
fn textfield_renders_identically_twice() {
    let mut registry = LoaderRegistry::new();
    let props = TextFieldProps {
        label: "Name".to_string(),
        required: true,
        max_length: Some(16),
        ..Default::default()
    };
    let (tf, _) = MatTextField::create(props, &mut registry);
    let d1 = tf.view();
    let d2 = tf.view();
    assert_eq!(d1.attrs, d2.attrs);
    assert_eq!(attr_value(&d1.attrs, AttrName::Required), Some(""));
    assert_eq!(attr_value(&d1.attrs, AttrName::MaxLength), Some("16"));
}

#[test]
fn dialog_renders_identically_twice() {
    let mut registry = LoaderRegistry::new();
    let props = DialogProps { stacked: true, ..Default::default() };
    let (dlg, _) = MatDialog::create(props, &mut registry);
    let d1 = dlg.view();
    let d2 = dlg.view();
    assert_eq!(d1.attrs, d2.attrs);
    assert_eq!(d1.has_children, d2.has_children);
}

#[test]
fn dialog_flags_and_optionals_project_exactly() {
    let mut registry = LoaderRegistry::new();
    let props = DialogProps {
        open: true,
        heading: Some("Greetings".to_string()),
        children: true,
        ..Default::default()
    };
    let (dlg, _) = MatDialog::create(props, &mut registry);
    let d = dlg.view();
    assert_eq!(d.tag, ElementKind::Dialog);
    assert!(d.has_children);
    assert_eq!(attr_value(&d.attrs, AttrName::Open), Some(""));
    assert_eq!(attr_value(&d.attrs, AttrName::HideActions), None);
    assert_eq!(attr_value(&d.attrs, AttrName::Stacked), None);
    assert_eq!(attr_value(&d.attrs, AttrName::Heading), Some("Greetings"));
    assert_eq!(attr_value(&d.attrs, AttrName::ScrimClickAction), None);
    assert_eq!(attr_value(&d.attrs, AttrName::Class), Some(""));
}

#[test]
fn empty_string_is_distinct_from_absent() {
    let mut registry = LoaderRegistry::new();
    let props = DialogProps {
        heading: Some(String::new()),
        ..Default::default()
    };
    let (dlg, _) = MatDialog::create(props, &mut registry);
    let d = dlg.view();
    assert_eq!(attr_value(&d.attrs, AttrName::Heading), Some(""));

    let props = DialogProps::default();
    let (dlg, _) = MatDialog::create(props, &mut registry);
    let d = dlg.view();
    assert_eq!(attr_value(&d.attrs, AttrName::Heading), None);
}

#[test]
fn textfield_maxlength_sentinel_is_omitted() {
    let mut registry = LoaderRegistry::new();
    let props = TextFieldProps::default();
    let (tf, _) = MatTextField::create(props, &mut registry);
    let d = tf.view();
    assert_eq!(attr_value(&d.attrs, AttrName::MaxLength), None);
    assert_eq!(attr_value(&d.attrs, AttrName::Size), None);
    assert_eq!(attr_value(&d.attrs, AttrName::Step), None);
}

#[test]
fn textfield_maxlength_renders_decimal_string() {
    let mut registry = LoaderRegistry::new();
    let props = TextFieldProps {
        max_length: Some(0),
        size: Some(-3),
        step: Some(10),
        ..Default::default()
    };
    let (tf, _) = MatTextField::create(props, &mut registry);
    let d = tf.view();
    assert_eq!(attr_value(&d.attrs, AttrName::MaxLength), Some("0"));
    assert_eq!(attr_value(&d.attrs, AttrName::Size), Some("-3"));
    assert_eq!(attr_value(&d.attrs, AttrName::Step), Some("10"));
}

#[test]
fn textfield_value_and_type_are_no_attributes() {
    let mut registry = LoaderRegistry::new();
    let props = TextFieldProps {
        value: "hello".to_string(),
        ..Default::default()
    };
    let (tf, _) = MatTextField::create(props, &mut registry);
    let d = tf.view();
    assert_eq!(attr_value(&d.attrs, AttrName::Value), None);
    assert!(d.attrs.iter().all(|a| a.value != "hello"));
    assert!(d.attrs.iter().all(|a| a.value != "text"));
}

#[test]
fn list_item_tabindex_has_no_sentinel() {
    let mut registry = LoaderRegistry::new();
    let props = ListItemProps::default();
    let (li, _) = MatListItem::create(props, &mut registry);
    let d = li.view();
    // the default -1 is a real value and is rendered
    assert_eq!(attr_value(&d.attrs, AttrName::Tabindex), Some("-1"));
    assert_eq!(attr_value(&d.attrs, AttrName::Graphic), Some("null"));
    assert_eq!(attr_value(&d.attrs, AttrName::Selected), None);
}

#[test]
fn circular_progress_projects_density_and_flags() {
    let mut registry = LoaderRegistry::new();
    let props = CircularProgressProps {
        classes: String::new(),
        indeterminate: true,
        progress: "0.5".to_string(),
        density: 4,
        closed: false,
    };
    let (cp, _) = MatCircularProgress::create(props, &mut registry);
    let d = cp.view();
    assert_eq!(d.tag, ElementKind::CircularProgress);
    assert_eq!(attr_value(&d.attrs, AttrName::Indeterminate), Some(""));
    assert_eq!(attr_value(&d.attrs, AttrName::Progress), Some("0.5"));
    assert_eq!(attr_value(&d.attrs, AttrName::Density), Some("4"));
    assert_eq!(attr_value(&d.attrs, AttrName::Closed), None);
}

#[test]
fn linear_progress_projects_buffer() {
    let mut registry = LoaderRegistry::new();
    let props = LinearProgressProps {
        buffer: "0.25".to_string(),
        reverse: true,
        ..Default::default()
    };
    let (lp, _) = MatLinearProgress::create(props, &mut registry);
    let d = lp.view();
    assert_eq!(attr_value(&d.attrs, AttrName::Buffer), Some("0.25"));
    assert_eq!(attr_value(&d.attrs, AttrName::Progress), Some("0"));
    assert_eq!(attr_value(&d.attrs, AttrName::Reverse), Some(""));
}

#[test]
fn icon_button_projects_label_and_icon() {
    let mut registry = LoaderRegistry::new();
    let props = IconButtonProps {
        label: "more".to_string(),
        icon: "menu".to_string(),
        disabled: false,
        ..Default::default()
    };
    let (ib, _) = MatIconButton::create(props, &mut registry);
    let d = ib.view();
    assert_eq!(d.tag, ElementKind::IconButton);
    assert_eq!(attr_value(&d.attrs, AttrName::Label), Some("more"));
    assert_eq!(attr_value(&d.attrs, AttrName::Icon), Some("menu"));
    assert_eq!(attr_value(&d.attrs, AttrName::Disabled), None);
}
