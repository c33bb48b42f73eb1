//! The `mwc-dialog` adapter: a modal dialog with four surfaced native
//! events (`opening`, `opened`, `closing`, `closed`) and an imperative
//! control handle for focus, blur, show and close.

use vstd::prelude::*;
use crate::host::{
    Attribute, AttrName, ElementDescription, ElementKind, EventError, EventKind, ListenerHandle,
    attrs_model, model_has_attr, push_flag_attr, push_opt_string_attr, push_string_attr,
    spec_flag_attr, spec_opt_string_attr, spec_string_attr, lemma_has_attr_concat,
    lemma_has_attr_flag, lemma_has_attr_opt_string, lemma_has_attr_string,
};
use crate::registry::LoaderRegistry;

verus! {

/// Props for [`MatDialog`].  The embedder keeps the callback slots for the
/// four surfaced events and the control-handle slot; the adapter hands the
/// payloads through the `deliver_*` methods.
#[derive(Debug, Clone)]
pub struct DialogProps {
    pub classes: String,
    pub open: bool,
    pub hide_action: bool,
    pub stacked: bool,
    pub heading: Option<String>,
    pub scrim_click_action: Option<String>,
    pub escape_key_action: Option<String>,
    pub default_action: Option<String>,
    pub action_attribute: Option<String>,
    pub initial_focus_attribute: Option<String>,
    /// Whether child content (the dialog's body and action elements) is
    /// nested inside the host element.
    pub children: bool,
}

impl Default for DialogProps {
    /// Every flag defaults to off, every optional field to unset.
    fn default() -> (r: Self)
        ensures
            r.classes@ == Seq::<char>::empty(),
            !r.open,
            !r.hide_action,
            !r.stacked,
            r.heading is None,
            r.scrim_click_action is None,
            r.escape_key_action is None,
            r.default_action is None,
            r.action_attribute is None,
            r.initial_focus_attribute is None,
            !r.children,
    {
        DialogProps {
            classes: String::new(),
            open: false,
            hide_action: false,
            stacked: false,
            heading: None,
            scrim_click_action: None,
            escape_key_action: None,
            default_action: None,
            action_attribute: None,
            initial_focus_attribute: None,
            children: false,
        }
    }
}

/// The listeners to install after a render commit, one per event the
/// adapter surfaces; set only where no listener is active yet.
#[derive(Debug)]
pub struct DialogEffects {
    pub install_opening: bool,
    pub install_opened: bool,
    pub install_closing: bool,
    pub install_closed: bool,
}

/// The `mwc-dialog` adapter.
pub struct MatDialog {
    pub props: DialogProps,
    pub host_attached: bool,
    pub opening_listener: Option<ListenerHandle>,
    pub opened_listener: Option<ListenerHandle>,
    pub closing_listener: Option<ListenerHandle>,
    pub closed_listener: Option<ListenerHandle>,
    /// How many listener installations this instance has performed.
    pub installs: u64,
}

impl MatDialog {
    /// The projection of the property record onto host-element attributes.
    pub open spec fn spec_attrs(p: DialogProps) -> Seq<(AttrName, Seq<char>)> {
        spec_string_attr(AttrName::Class, p.classes@) + spec_flag_attr(AttrName::Open, p.open)
            + spec_flag_attr(AttrName::HideActions, p.hide_action) + spec_flag_attr(
            AttrName::Stacked,
            p.stacked,
        ) + spec_opt_string_attr(AttrName::Heading, p.heading) + spec_opt_string_attr(
            AttrName::ScrimClickAction,
            p.scrim_click_action,
        ) + spec_opt_string_attr(AttrName::EscapeKeyAction, p.escape_key_action)
            + spec_opt_string_attr(AttrName::DefaultAction, p.default_action)
            + spec_opt_string_attr(AttrName::ActionAttribute, p.action_attribute)
            + spec_opt_string_attr(AttrName::InitialFocusAttribute, p.initial_focus_attribute)
    }

    /// True while no listener at all is installed.
    pub open spec fn no_listeners(self) -> bool {
        self.opening_listener is None && self.opened_listener is None && self.closing_listener
            is None && self.closed_listener is None
    }

    /// Creates the adapter and records its element kind with the registry.
    /// The returned flag says whether the backing script must be loaded now.
    pub fn create(props: DialogProps, registry: &mut LoaderRegistry) -> (r: (Self, bool))
        ensures
            r.0.props == props,
            r.0.no_listeners(),
            !r.0.host_attached,
            r.0.installs == 0,
            final(registry).loaded_set() == old(registry).loaded_set().insert(
                ElementKind::Dialog,
            ),
            r.1 == !old(registry).loaded_set().contains(ElementKind::Dialog),
    {
        let attempt = registry.register(ElementKind::Dialog);
        (
            MatDialog {
                props,
                host_attached: false,
                opening_listener: None,
                opened_listener: None,
                closing_listener: None,
                closed_listener: None,
                installs: 0,
            },
            attempt,
        )
    }

    /// Messages never re-render this adapter.
    pub fn update(&mut self, _msg: ()) -> (render: bool)
        ensures
            *final(self) == *old(self),
            !render,
    {
        false
    }

    /// Accepts a new property record and asks for a re-render; listeners
    /// and one-time state are untouched.
    pub fn change(&mut self, props: DialogProps) -> (render: bool)
        ensures
            final(self).props == props,
            final(self).opening_listener == old(self).opening_listener,
            final(self).opened_listener == old(self).opened_listener,
            final(self).closing_listener == old(self).closing_listener,
            final(self).closed_listener == old(self).closed_listener,
            final(self).host_attached == old(self).host_attached,
            final(self).installs == old(self).installs,
            render,
    {
        self.props = props;
        true
    }

    /// The pure projection of the property record onto a host-element
    /// description, child content nested inside.
    pub fn view(&self) -> (d: ElementDescription)
        ensures
            d.tag == ElementKind::Dialog,
            d.model() == Self::spec_attrs(self.props),
            d.has_children == self.props.children,
    {
        let mut attrs: Vec<Attribute> = Vec::new();
        push_string_attr(&mut attrs, AttrName::Class, &self.props.classes);
        push_flag_attr(&mut attrs, AttrName::Open, self.props.open);
        push_flag_attr(&mut attrs, AttrName::HideActions, self.props.hide_action);
        push_flag_attr(&mut attrs, AttrName::Stacked, self.props.stacked);
        push_opt_string_attr(&mut attrs, AttrName::Heading, &self.props.heading);
        push_opt_string_attr(&mut attrs, AttrName::ScrimClickAction, &self.props.scrim_click_action);
        push_opt_string_attr(&mut attrs, AttrName::EscapeKeyAction, &self.props.escape_key_action);
        push_opt_string_attr(&mut attrs, AttrName::DefaultAction, &self.props.default_action);
        push_opt_string_attr(&mut attrs, AttrName::ActionAttribute, &self.props.action_attribute);
        push_opt_string_attr(
            &mut attrs,
            AttrName::InitialFocusAttribute,
            &self.props.initial_focus_attribute,
        );
        proof {
            assert(attrs_model(attrs@) =~= Self::spec_attrs(self.props));
        }
        ElementDescription {
            tag: ElementKind::Dialog,
            attrs,
            has_children: self.props.children,
        }
    }

    /// The framework has committed a render: the host node exists from now
    /// on.
    pub fn host_mounted(&mut self)
        ensures
            final(self).host_attached,
            final(self).props == old(self).props,
            final(self).opening_listener == old(self).opening_listener,
            final(self).opened_listener == old(self).opened_listener,
            final(self).closing_listener == old(self).closing_listener,
            final(self).closed_listener == old(self).closed_listener,
            final(self).installs == old(self).installs,
    {
        self.host_attached = true;
    }

    /// Post-render synchronization: installs a listener for each surfaced
    /// event that has none yet.  Re-renders never replace a live listener.
    pub fn rendered(&mut self, _first_render: bool) -> (e: DialogEffects)
        requires
            old(self).host_attached,
            old(self).installs <= u64::MAX - 4,
        ensures
            final(self).props == old(self).props,
            final(self).host_attached,
            e.install_opening == (old(self).opening_listener is None),
            e.install_opened == (old(self).opened_listener is None),
            e.install_closing == (old(self).closing_listener is None),
            e.install_closed == (old(self).closed_listener is None),
            final(self).opening_listener == (if old(self).opening_listener is None {
                Some(ListenerHandle { event: EventKind::Opening })
            } else {
                old(self).opening_listener
            }),
            final(self).opened_listener == (if old(self).opened_listener is None {
                Some(ListenerHandle { event: EventKind::Opened })
            } else {
                old(self).opened_listener
            }),
            final(self).closing_listener == (if old(self).closing_listener is None {
                Some(ListenerHandle { event: EventKind::Closing })
            } else {
                old(self).closing_listener
            }),
            final(self).closed_listener == (if old(self).closed_listener is None {
                Some(ListenerHandle { event: EventKind::Closed })
            } else {
                old(self).closed_listener
            }),
            final(self).installs == old(self).installs + (if old(self).opening_listener
                is None {
                1int
            } else {
                0int
            }) + (if old(self).opened_listener is None {
                1int
            } else {
                0int
            }) + (if old(self).closing_listener is None {
                1int
            } else {
                0int
            }) + (if old(self).closed_listener is None {
                1int
            } else {
                0int
            }),
    {
        let install_opening = self.opening_listener.is_none();
        if install_opening {
            self.opening_listener = Some(ListenerHandle { event: EventKind::Opening });
            self.installs = self.installs + 1;
        }
        let install_opened = self.opened_listener.is_none();
        if install_opened {
            self.opened_listener = Some(ListenerHandle { event: EventKind::Opened });
            self.installs = self.installs + 1;
        }
        let install_closing = self.closing_listener.is_none();
        if install_closing {
            self.closing_listener = Some(ListenerHandle { event: EventKind::Closing });
            self.installs = self.installs + 1;
        }
        let install_closed = self.closed_listener.is_none();
        if install_closed {
            self.closed_listener = Some(ListenerHandle { event: EventKind::Closed });
            self.installs = self.installs + 1;
        }
        DialogEffects { install_opening, install_opened, install_closing, install_closed }
    }

    /// Hands a native `opening` event to the adapter; reports whether the
    /// framework callback is owed its (empty) payload.
    pub fn deliver_opening(&self) -> (invoked: bool)
        ensures
            invoked == (self.opening_listener is Some),
    {
        self.opening_listener.is_some()
    }

    /// Hands a native `opened` event to the adapter; reports whether the
    /// framework callback is owed its (empty) payload.
    pub fn deliver_opened(&self) -> (invoked: bool)
        ensures
            invoked == (self.opened_listener is Some),
    {
        self.opened_listener.is_some()
    }

    /// Hands a native `closing` event to the adapter, with the `action`
    /// field of the event's detail payload if the event carried one.  While
    /// a listener is active the callback is owed the action string; a
    /// missing field is a malformed payload and fails fast.  Without a
    /// listener (in particular after teardown) nothing is invoked.
    pub fn deliver_closing(&self, detail_action: Option<&String>) -> (r: Result<
        Option<String>,
        EventError,
    >)
        ensures
            self.closing_listener is None ==> r == Ok::<Option<String>, EventError>(
                None::<String>,
            ),
            self.closing_listener is Some ==> r == (match detail_action {
                Some(a) => Ok::<Option<String>, EventError>(Some(*a)),
                None => Err::<Option<String>, EventError>(EventError::MalformedPayload),
            }),
    {
        if self.closing_listener.is_some() {
            match action_from_event(detail_action) {
                Ok(a) => Ok(Some(a)),
                Err(e) => Err(e),
            }
        } else {
            Ok(None)
        }
    }

    /// Hands a native `closed` event to the adapter; the same contract as
    /// [`MatDialog::deliver_closing`], for the `closed` listener.
    pub fn deliver_closed(&self, detail_action: Option<&String>) -> (r: Result<
        Option<String>,
        EventError,
    >)
        ensures
            self.closed_listener is None ==> r == Ok::<Option<String>, EventError>(None::<String>),
            self.closed_listener is Some ==> r == (match detail_action {
                Some(a) => Ok::<Option<String>, EventError>(Some(*a)),
                None => Err::<Option<String>, EventError>(EventError::MalformedPayload),
            }),
    {
        if self.closed_listener.is_some() {
            match action_from_event(detail_action) {
                Ok(a) => Ok(Some(a)),
                Err(e) => Err(e),
            }
        } else {
            Ok(None)
        }
    }

    /// Teardown: releases every listener and gives up the host node,
    /// synchronously and completely.
    pub fn destroy(&mut self)
        ensures
            final(self).no_listeners(),
            !final(self).host_attached,
            final(self).props == old(self).props,
            final(self).installs == old(self).installs,
    {
        self.opening_listener = None;
        self.opened_listener = None;
        self.closing_listener = None;
        self.closed_listener = None;
        self.host_attached = false;
    }
}

/// Extracts the `action` string from the detail payload of a `closing` or
/// `closed` event.  A payload without the field is malformed and is
/// rejected rather than passed on.
pub fn action_from_event(detail_action: Option<&String>) -> (r: Result<String, EventError>)
    ensures
        r == (match detail_action {
            Some(a) => Ok::<String, EventError>(*a),
            None => Err::<String, EventError>(EventError::MalformedPayload),
        }),
{
    match detail_action {
        Some(a) => Ok(a.clone()),
        None => Err(EventError::MalformedPayload),
    }
}

/// Law: the dialog's boolean flags project to attribute presence exactly,
/// and its optional strings appear exactly when set; a flag left at its
/// off default yields no attribute at all.
pub proof fn lemma_dialog_flag_projection(p: DialogProps)
    ensures
        model_has_attr(MatDialog::spec_attrs(p), AttrName::Open) == p.open,
        model_has_attr(MatDialog::spec_attrs(p), AttrName::HideActions) == p.hide_action,
        model_has_attr(MatDialog::spec_attrs(p), AttrName::Stacked) == p.stacked,
        model_has_attr(MatDialog::spec_attrs(p), AttrName::Heading) == (p.heading is Some),
        model_has_attr(MatDialog::spec_attrs(p), AttrName::Class),
{
    broadcast use
        lemma_has_attr_concat,
        lemma_has_attr_flag,
        lemma_has_attr_string,
        lemma_has_attr_opt_string;

}

/// What an imperative use of the dialog's control handle performs on the
/// live host element.
#[derive(Clone, Copy, PartialEq, Eq, Structural, Debug)]
pub enum DialogCommand {
    Focus,
    Blur,
    Show,
    Close,
}

/// Why an imperative use of the control handle was refused.
#[derive(Clone, Copy, PartialEq, Eq, Structural, Debug)]
pub enum HandleError {
    /// No live adapter instance stands behind the handle: it was never
    /// bound, or the adapter was torn down.
    Unbound,
    /// The adapter is live but has not completed a render yet, so no host
    /// node exists to act on.
    NotRendered,
}

/// The state an externally held control-handle slot is in.
#[derive(Clone, Copy, PartialEq, Eq, Structural, Debug)]
pub enum LinkState {
    /// No live adapter behind the slot.
    Unbound,
    /// A live adapter, which has completed a render exactly when
    /// `host_rendered` holds.
    Bound { host_rendered: bool },
}

/// A non-owning handle to a live [`MatDialog`] instance, held by the
/// embedding application.  The embedder populates it when the adapter is
/// created, marks it when the first render commits, and clears it on
/// teardown; using it outside that window fails loudly rather than acting
/// on a stale target.
pub struct WeakComponentLink {
    pub state: LinkState,
}

impl WeakComponentLink {
    /// What invoking the handle in a given state yields: the command to
    /// perform on the host element, or the error a misuse is owed.  Before
    /// any completed render the handle always fails; it never silently
    /// succeeds.
    pub open spec fn spec_invoke(s: LinkState, c: DialogCommand) -> Result<
        DialogCommand,
        HandleError,
    > {
        match s {
            LinkState::Unbound => Err(HandleError::Unbound),
            LinkState::Bound { host_rendered } => if host_rendered {
                Ok(c)
            } else {
                Err(HandleError::NotRendered)
            },
        }
    }

    /// A fresh slot with nothing behind it.
    pub fn new() -> (r: Self)
        ensures
            r.state == LinkState::Unbound,
    {
        WeakComponentLink { state: LinkState::Unbound }
    }

    /// Populates the slot when an adapter instance is created; no render
    /// has completed yet.
    pub fn bind(&mut self)
        ensures
            final(self).state == (LinkState::Bound { host_rendered: false }),
    {
        self.state = LinkState::Bound { host_rendered: false };
    }

    /// Records that the bound adapter has completed a render: the host
    /// node exists and the handle becomes usable.
    pub fn notify_rendered(&mut self)
        requires
            old(self).state is Bound,
        ensures
            final(self).state == (LinkState::Bound { host_rendered: true }),
    {
        self.state = LinkState::Bound { host_rendered: true };
    }

    /// Clears the slot on adapter teardown; later uses fail rather than
    /// reach a stale target.
    pub fn clear(&mut self)
        ensures
            final(self).state == LinkState::Unbound,
    {
        self.state = LinkState::Unbound;
    }

    fn invoke(&self, c: DialogCommand) -> (r: Result<DialogCommand, HandleError>)
        ensures
            r == Self::spec_invoke(self.state, c),
    {
        match self.state {
            LinkState::Unbound => Err(HandleError::Unbound),
            LinkState::Bound { host_rendered } => if host_rendered {
                Ok(c)
            } else {
                Err(HandleError::NotRendered)
            },
        }
    }

    /// Asks the live dialog's host element to take focus.
    pub fn focus(&self) -> (r: Result<DialogCommand, HandleError>)
        ensures
            r == Self::spec_invoke(self.state, DialogCommand::Focus),
    {
        self.invoke(DialogCommand::Focus)
    }

    /// Asks the live dialog's host element to give up focus.
    pub fn blur(&self) -> (r: Result<DialogCommand, HandleError>)
        ensures
            r == Self::spec_invoke(self.state, DialogCommand::Blur),
    {
        self.invoke(DialogCommand::Blur)
    }

    /// Asks the live dialog to open.
    pub fn show(&self) -> (r: Result<DialogCommand, HandleError>)
        ensures
            r == Self::spec_invoke(self.state, DialogCommand::Show),
    {
        self.invoke(DialogCommand::Show)
    }

    /// Asks the live dialog to close.
    pub fn close(&self) -> (r: Result<DialogCommand, HandleError>)
        ensures
            r == Self::spec_invoke(self.state, DialogCommand::Close),
    {
        self.invoke(DialogCommand::Close)
    }
}

/// Law: an imperative control handle invoked before the adapter has
/// completed any render fails immediately, whatever the command; it never
/// silently succeeds.
pub proof fn lemma_handle_fails_before_render(s: LinkState, c: DialogCommand)
    requires
        s == LinkState::Unbound || s == (LinkState::Bound { host_rendered: false }),
    ensures
        WeakComponentLink::spec_invoke(s, c) is Err,
{
}

} // verus!
