//! The `mwc-icon-button` adapter: a clickable icon with no surfaced
//! events of its own; its whole behaviour is one pure projection.

use vstd::prelude::*;
use crate::host::{
    Attribute, AttrName, ElementDescription, ElementKind, attrs_model, model_has_attr,
    push_flag_attr, push_string_attr, spec_flag_attr, spec_string_attr, lemma_has_attr_concat,
    lemma_has_attr_flag, lemma_has_attr_string,
};
use crate::registry::LoaderRegistry;

verus! {

/// Props for [`MatIconButton`].
#[derive(Debug, Clone)]
pub struct IconButtonProps {
    pub classes: String,
    pub label: String,
    pub icon: String,
    pub disabled: bool,
    /// Whether child content (a custom icon) is nested inside the host
    /// element.
    pub children: bool,
}

impl Default for IconButtonProps {
    /// Strings default to empty, the flag to off, no child content.
    fn default() -> (r: Self)
        ensures
            r.classes@ == Seq::<char>::empty(),
            r.label@ == Seq::<char>::empty(),
            r.icon@ == Seq::<char>::empty(),
            !r.disabled,
            !r.children,
    {
        IconButtonProps {
            classes: String::new(),
            label: String::new(),
            icon: String::new(),
            disabled: false,
            children: false,
        }
    }
}

/// The `mwc-icon-button` adapter.
pub struct MatIconButton {
    pub props: IconButtonProps,
}

impl MatIconButton {
    /// The projection of the property record onto host-element attributes.
    pub open spec fn spec_attrs(p: IconButtonProps) -> Seq<(AttrName, Seq<char>)> {
        spec_string_attr(AttrName::Class, p.classes@) + spec_string_attr(AttrName::Label, p.label@)
            + spec_string_attr(AttrName::Icon, p.icon@) + spec_flag_attr(
            AttrName::Disabled,
            p.disabled,
        )
    }

    /// Creates the adapter and records its element kind with the registry.
    /// The returned flag says whether the backing script must be loaded now.
    pub fn create(props: IconButtonProps, registry: &mut LoaderRegistry) -> (r: (Self, bool))
        ensures
            r.0.props == props,
            final(registry).loaded_set() == old(registry).loaded_set().insert(
                ElementKind::IconButton,
            ),
            r.1 == !old(registry).loaded_set().contains(ElementKind::IconButton),
    {
        let attempt = registry.register(ElementKind::IconButton);
        (MatIconButton { props }, attempt)
    }

    /// Messages never re-render this adapter.
    pub fn update(&mut self, _msg: ()) -> (render: bool)
        ensures
            *final(self) == *old(self),
            !render,
    {
        false
    }

    /// Accepts a new property record and asks for a re-render.
    pub fn change(&mut self, props: IconButtonProps) -> (render: bool)
        ensures
            final(self).props == props,
            render,
    {
        self.props = props;
        true
    }

    /// The pure projection of the property record onto a host-element
    /// description, child content nested inside.
    pub fn view(&self) -> (d: ElementDescription)
        ensures
            d.tag == ElementKind::IconButton,
            d.model() == Self::spec_attrs(self.props),
            d.has_children == self.props.children,
    {
        let mut attrs: Vec<Attribute> = Vec::new();
        push_string_attr(&mut attrs, AttrName::Class, &self.props.classes);
        push_string_attr(&mut attrs, AttrName::Label, &self.props.label);
        push_string_attr(&mut attrs, AttrName::Icon, &self.props.icon);
        push_flag_attr(&mut attrs, AttrName::Disabled, self.props.disabled);
        proof {
            assert(attrs_model(attrs@) =~= Self::spec_attrs(self.props));
        }
        ElementDescription {
            tag: ElementKind::IconButton,
            attrs,
            has_children: self.props.children,
        }
    }
}

/// Law: the icon button's `disabled` flag projects to attribute presence
/// exactly.
pub proof fn lemma_icon_button_flag_projection(p: IconButtonProps)
    ensures
        model_has_attr(MatIconButton::spec_attrs(p), AttrName::Disabled) == p.disabled,
        model_has_attr(MatIconButton::spec_attrs(p), AttrName::Icon),
{
    broadcast use lemma_has_attr_concat, lemma_has_attr_flag, lemma_has_attr_string;

}

} // verus!
