//! The `mwc-circular-progress` adapter: a spinner with no events and no
//! imperative follow-up; its whole behaviour is one pure projection.

use vstd::prelude::*;
use vstd::string::StringExecFns;
use crate::host::{
    Attribute, AttrName, ElementDescription, ElementKind, attrs_model, model_has_attr,
    push_flag_attr, push_string_attr, push_u32_attr, spec_flag_attr, spec_string_attr,
    spec_u32_attr, lemma_has_attr_concat, lemma_has_attr_flag, lemma_has_attr_string,
    lemma_has_attr_u32,
};
use crate::registry::LoaderRegistry;

verus! {

/// Props for [`MatCircularProgress`].
#[derive(Debug, Clone)]
pub struct CircularProgressProps {
    pub classes: String,
    pub indeterminate: bool,
    /// The progress fraction as the decimal text the attribute carries.
    /// The element parses it; rendering the underlying floating-point
    /// fraction into text stays with the embedder.
    pub progress: String,
    pub density: u32,
    pub closed: bool,
}

impl Default for CircularProgressProps {
    /// Flags default to off, `progress` to "0" and `density` to zero.
    fn default() -> (r: Self)
        ensures
            r.classes@ == Seq::<char>::empty(),
            !r.indeterminate,
            r.progress@ == "0"@,
            r.density == 0,
            !r.closed,
    {
        CircularProgressProps {
            classes: String::new(),
            indeterminate: false,
            progress: String::from_str("0"),
            density: 0,
            closed: false,
        }
    }
}

/// The `mwc-circular-progress` adapter.
pub struct MatCircularProgress {
    pub props: CircularProgressProps,
}

impl MatCircularProgress {
    /// The projection of the property record onto host-element attributes.
    /// `progress` and `density` have no unset sentinel: they are always
    /// rendered.
    pub open spec fn spec_attrs(p: CircularProgressProps) -> Seq<(AttrName, Seq<char>)> {
        spec_string_attr(AttrName::Class, p.classes@) + spec_flag_attr(
            AttrName::Indeterminate,
            p.indeterminate,
        ) + spec_string_attr(AttrName::Progress, p.progress@) + spec_u32_attr(
            AttrName::Density,
            p.density,
        ) + spec_flag_attr(AttrName::Closed, p.closed)
    }

    /// Creates the adapter and records its element kind with the registry.
    /// The returned flag says whether the backing script must be loaded now.
    pub fn create(props: CircularProgressProps, registry: &mut LoaderRegistry) -> (r: (Self, bool))
        ensures
            r.0.props == props,
            final(registry).loaded_set() == old(registry).loaded_set().insert(
                ElementKind::CircularProgress,
            ),
            r.1 == !old(registry).loaded_set().contains(ElementKind::CircularProgress),
    {
        let attempt = registry.register(ElementKind::CircularProgress);
        (MatCircularProgress { props }, attempt)
    }

    /// Messages never re-render this adapter.
    pub fn update(&mut self, _msg: ()) -> (render: bool)
        ensures
            *final(self) == *old(self),
            !render,
    {
        false
    }

    /// Accepts a new property record and asks for a re-render.
    pub fn change(&mut self, props: CircularProgressProps) -> (render: bool)
        ensures
            final(self).props == props,
            render,
    {
        self.props = props;
        true
    }

    /// The pure projection of the property record onto a host-element
    /// description.
    pub fn view(&self) -> (d: ElementDescription)
        ensures
            d.tag == ElementKind::CircularProgress,
            d.model() == Self::spec_attrs(self.props),
            !d.has_children,
    {
        let mut attrs: Vec<Attribute> = Vec::new();
        push_string_attr(&mut attrs, AttrName::Class, &self.props.classes);
        push_flag_attr(&mut attrs, AttrName::Indeterminate, self.props.indeterminate);
        push_string_attr(&mut attrs, AttrName::Progress, &self.props.progress);
        push_u32_attr(&mut attrs, AttrName::Density, self.props.density);
        push_flag_attr(&mut attrs, AttrName::Closed, self.props.closed);
        proof {
            assert(attrs_model(attrs@) =~= Self::spec_attrs(self.props));
        }
        ElementDescription { tag: ElementKind::CircularProgress, attrs, has_children: false }
    }
}

/// Law: the spinner's boolean flags project to attribute presence exactly.
pub proof fn lemma_circular_progress_flag_projection(p: CircularProgressProps)
    ensures
        model_has_attr(MatCircularProgress::spec_attrs(p), AttrName::Indeterminate)
            == p.indeterminate,
        model_has_attr(MatCircularProgress::spec_attrs(p), AttrName::Closed) == p.closed,
        model_has_attr(MatCircularProgress::spec_attrs(p), AttrName::Density),
{
    broadcast use
        lemma_has_attr_concat,
        lemma_has_attr_flag,
        lemma_has_attr_string,
        lemma_has_attr_u32;

}

} // verus!
