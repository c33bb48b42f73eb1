//! The `mwc-switch` adapter: an on/off control whose `checked` state is
//! synchronized imperatively after every render commit, with a single
//! `change` listener surfacing the element's state to the embedder.

use vstd::prelude::*;
use crate::host::{
    Attribute, AttrName, ElementDescription, ElementKind, EventKind, ListenerHandle, attrs_model,
    model_has_attr, push_flag_attr, push_string_attr, spec_flag_attr, spec_string_attr,
    lemma_has_attr_concat, lemma_has_attr_flag, lemma_has_attr_string,
};
use crate::registry::LoaderRegistry;

verus! {

/// Props for [`MatSwitch`].  The embedder keeps the `change` callback slot;
/// the adapter hands it the payload through [`MatSwitch::deliver_change`].
#[derive(Debug, Clone)]
pub struct SwitchProps {
    pub classes: String,
    pub checked: bool,
    pub disabled: bool,
}

impl Default for SwitchProps {
    /// Both flags default to off.
    fn default() -> (r: Self)
        ensures
            r.classes@ == Seq::<char>::empty(),
            !r.checked,
            !r.disabled,
    {
        SwitchProps { classes: String::new(), checked: false, disabled: false }
    }
}

/// The imperative follow-up owed after a render commit.
#[derive(Debug)]
pub struct SwitchEffects {
    /// The value to write to the host element's native `checked` property,
    /// on every pass.
    pub set_checked: bool,
    /// Whether a `change` listener is to be installed now (first pass only;
    /// an active listener is never replaced).
    pub install_change_listener: bool,
}

/// The `mwc-switch` adapter.
pub struct MatSwitch {
    pub props: SwitchProps,
    pub host_attached: bool,
    pub change_listener: Option<ListenerHandle>,
    /// How many listener installations this instance has performed.
    pub installs: u64,
}

impl MatSwitch {
    /// The projection of the property record onto host-element attributes.
    /// `checked` is deliberately no attribute: the element only honours it as
    /// a native property, set after each commit.
    pub open spec fn spec_attrs(p: SwitchProps) -> Seq<(AttrName, Seq<char>)> {
        spec_string_attr(AttrName::Class, p.classes@) + spec_flag_attr(
            AttrName::Disabled,
            p.disabled,
        )
    }

    /// Creates the adapter and records its element kind with the registry.
    /// The returned flag says whether the backing script must be loaded now;
    /// it is set exactly on the first creation for this kind.
    pub fn create(props: SwitchProps, registry: &mut LoaderRegistry) -> (r: (Self, bool))
        ensures
            r.0.props == props,
            r.0.change_listener is None,
            !r.0.host_attached,
            r.0.installs == 0,
            final(registry).loaded_set() == old(registry).loaded_set().insert(
                ElementKind::Switch,
            ),
            r.1 == !old(registry).loaded_set().contains(ElementKind::Switch),
    {
        let attempt = registry.register(ElementKind::Switch);
        (MatSwitch { props, host_attached: false, change_listener: None, installs: 0 }, attempt)
    }

    /// Messages never re-render this adapter.
    pub fn update(&mut self, _msg: ()) -> (render: bool)
        ensures
            *final(self) == *old(self),
            !render,
    {
        false
    }

    /// Accepts a new property record and asks for a re-render; listeners and
    /// one-time state are untouched.
    pub fn change(&mut self, props: SwitchProps) -> (render: bool)
        ensures
            final(self).props == props,
            final(self).change_listener == old(self).change_listener,
            final(self).host_attached == old(self).host_attached,
            final(self).installs == old(self).installs,
            render,
    {
        self.props = props;
        true
    }

    /// The pure projection of the property record onto a host-element
    /// description.
    pub fn view(&self) -> (d: ElementDescription)
        ensures
            d.tag == ElementKind::Switch,
            d.model() == Self::spec_attrs(self.props),
            !d.has_children,
    {
        let mut attrs: Vec<Attribute> = Vec::new();
        push_string_attr(&mut attrs, AttrName::Class, &self.props.classes);
        push_flag_attr(&mut attrs, AttrName::Disabled, self.props.disabled);
        proof {
            assert(attrs_model(attrs@) =~= Self::spec_attrs(self.props));
        }
        ElementDescription { tag: ElementKind::Switch, attrs, has_children: false }
    }

    /// The framework has committed a render: the host node exists from now
    /// on.
    pub fn host_mounted(&mut self)
        ensures
            final(self).host_attached,
            final(self).props == old(self).props,
            final(self).change_listener == old(self).change_listener,
            final(self).installs == old(self).installs,
    {
        self.host_attached = true;
    }

    /// Post-render synchronization.  Runs only once the host node exists;
    /// reports the native `checked` property to set on every pass, and
    /// installs the `change` listener only if none is active: re-renders
    /// never replace a live listener nor install a second one.
    pub fn rendered(&mut self, _first_render: bool) -> (e: SwitchEffects)
        requires
            old(self).host_attached,
            old(self).installs < u64::MAX,
        ensures
            final(self).props == old(self).props,
            final(self).host_attached,
            e.set_checked == old(self).props.checked,
            e.install_change_listener == (old(self).change_listener is None),
            old(self).change_listener is Some ==> final(self).change_listener == old(
                self,
            ).change_listener && final(self).installs == old(self).installs,
            old(self).change_listener is None ==> final(self).change_listener == Some(
                ListenerHandle { event: EventKind::Change },
            ) && final(self).installs == old(self).installs + 1,
    {
        let install = self.change_listener.is_none();
        if install {
            self.change_listener = Some(ListenerHandle { event: EventKind::Change });
            self.installs = self.installs + 1;
        }
        SwitchEffects { set_checked: self.props.checked, install_change_listener: install }
    }

    /// Hands a native `change` event to the adapter.  The result is the
    /// payload the framework callback is owed: the element's current checked
    /// state while a listener is active, nothing once the listener is
    /// removed (in particular, always nothing after teardown).
    pub fn deliver_change(&self, element_checked: bool) -> (r: Option<bool>)
        ensures
            r == (if self.change_listener is Some {
                Some(element_checked)
            } else {
                None::<bool>
            }),
    {
        if self.change_listener.is_some() {
            Some(element_checked)
        } else {
            None
        }
    }

    /// Teardown: releases the listener and gives up the host node.  Complete
    /// and synchronous: afterwards no listener is active, so no further
    /// event can reach a framework callback.
    pub fn destroy(&mut self)
        ensures
            final(self).change_listener is None,
            !final(self).host_attached,
            final(self).props == old(self).props,
            final(self).installs == old(self).installs,
    {
        self.change_listener = None;
        self.host_attached = false;
    }
}

/// Law: the switch's flag attributes appear exactly when the flag is on;
/// with `disabled` off, no `disabled` attribute exists at all.
pub proof fn lemma_switch_flag_projection(p: SwitchProps)
    ensures
        model_has_attr(MatSwitch::spec_attrs(p), AttrName::Disabled) == p.disabled,
        model_has_attr(MatSwitch::spec_attrs(p), AttrName::Class),
{
    broadcast use lemma_has_attr_concat, lemma_has_attr_flag, lemma_has_attr_string;

}

} // verus!
