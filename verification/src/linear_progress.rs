//! The `mwc-linear-progress` adapter: a progress bar with no events and
//! no imperative follow-up; its whole behaviour is one pure projection.

use vstd::prelude::*;
use vstd::string::StringExecFns;
use crate::host::{
    Attribute, AttrName, ElementDescription, ElementKind, attrs_model, model_has_attr,
    push_flag_attr, push_string_attr, spec_flag_attr, spec_string_attr, lemma_has_attr_concat,
    lemma_has_attr_flag, lemma_has_attr_string,
};
use crate::registry::LoaderRegistry;

verus! {

/// Props for [`MatLinearProgress`].
#[derive(Debug, Clone)]
pub struct LinearProgressProps {
    pub classes: String,
    pub indeterminate: bool,
    /// The progress fraction as the decimal text the attribute carries.
    /// The element parses it; rendering the underlying floating-point
    /// fraction into text stays with the embedder.
    pub progress: String,
    /// The buffer fraction, carried as decimal text like `progress`.
    pub buffer: String,
    pub reverse: bool,
    pub closed: bool,
}

impl Default for LinearProgressProps {
    /// Flags default to off, both fractions to "0".
    fn default() -> (r: Self)
        ensures
            r.classes@ == Seq::<char>::empty(),
            !r.indeterminate,
            r.progress@ == "0"@,
            r.buffer@ == "0"@,
            !r.reverse,
            !r.closed,
    {
        LinearProgressProps {
            classes: String::new(),
            indeterminate: false,
            progress: String::from_str("0"),
            buffer: String::from_str("0"),
            reverse: false,
            closed: false,
        }
    }
}

/// The `mwc-linear-progress` adapter.
pub struct MatLinearProgress {
    pub props: LinearProgressProps,
}

impl MatLinearProgress {
    /// The projection of the property record onto host-element attributes.
    /// `progress` and `buffer` have no unset sentinel: they are always
    /// rendered.
    pub open spec fn spec_attrs(p: LinearProgressProps) -> Seq<(AttrName, Seq<char>)> {
        spec_string_attr(AttrName::Class, p.classes@) + spec_flag_attr(
            AttrName::Indeterminate,
            p.indeterminate,
        ) + spec_string_attr(AttrName::Progress, p.progress@) + spec_string_attr(
            AttrName::Buffer,
            p.buffer@,
        ) + spec_flag_attr(AttrName::Reverse, p.reverse) + spec_flag_attr(
            AttrName::Closed,
            p.closed,
        )
    }

    /// Creates the adapter and records its element kind with the registry.
    /// The returned flag says whether the backing script must be loaded now.
    pub fn create(props: LinearProgressProps, registry: &mut LoaderRegistry) -> (r: (Self, bool))
        ensures
            r.0.props == props,
            final(registry).loaded_set() == old(registry).loaded_set().insert(
                ElementKind::LinearProgress,
            ),
            r.1 == !old(registry).loaded_set().contains(ElementKind::LinearProgress),
    {
        let attempt = registry.register(ElementKind::LinearProgress);
        (MatLinearProgress { props }, attempt)
    }

    /// Messages never re-render this adapter.
    pub fn update(&mut self, _msg: ()) -> (render: bool)
        ensures
            *final(self) == *old(self),
            !render,
    {
        false
    }

    /// Accepts a new property record and asks for a re-render.
    pub fn change(&mut self, props: LinearProgressProps) -> (render: bool)
        ensures
            final(self).props == props,
            render,
    {
        self.props = props;
        true
    }

    /// The pure projection of the property record onto a host-element
    /// description.
    pub fn view(&self) -> (d: ElementDescription)
        ensures
            d.tag == ElementKind::LinearProgress,
            d.model() == Self::spec_attrs(self.props),
            !d.has_children,
    {
        let mut attrs: Vec<Attribute> = Vec::new();
        push_string_attr(&mut attrs, AttrName::Class, &self.props.classes);
        push_flag_attr(&mut attrs, AttrName::Indeterminate, self.props.indeterminate);
        push_string_attr(&mut attrs, AttrName::Progress, &self.props.progress);
        push_string_attr(&mut attrs, AttrName::Buffer, &self.props.buffer);
        push_flag_attr(&mut attrs, AttrName::Reverse, self.props.reverse);
        push_flag_attr(&mut attrs, AttrName::Closed, self.props.closed);
        proof {
            assert(attrs_model(attrs@) =~= Self::spec_attrs(self.props));
        }
        ElementDescription { tag: ElementKind::LinearProgress, attrs, has_children: false }
    }
}

/// Law: the progress bar's boolean flags project to attribute presence
/// exactly.
pub proof fn lemma_linear_progress_flag_projection(p: LinearProgressProps)
    ensures
        model_has_attr(MatLinearProgress::spec_attrs(p), AttrName::Indeterminate)
            == p.indeterminate,
        model_has_attr(MatLinearProgress::spec_attrs(p), AttrName::Reverse) == p.reverse,
        model_has_attr(MatLinearProgress::spec_attrs(p), AttrName::Closed) == p.closed,
{
    broadcast use lemma_has_attr_concat, lemma_has_attr_flag, lemma_has_attr_string;

}

} // verus!
