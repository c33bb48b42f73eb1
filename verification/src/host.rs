//! The host-element vocabulary: element kinds, attribute names with their
//! exact DOM casing, and the pure description of a rendered host element.

use vstd::prelude::*;
use vstd::string::StringExecFns;
use crate::decimal::{
    spec_udec, spec_idec, u64_to_dec_string, i64_to_dec_string, u32_to_dec_string,
    i32_to_dec_string,
};

verus! {

/// The custom-element kinds this crate adapts.
#[derive(Clone, Copy, PartialEq, Eq, Structural, Debug)]
pub enum ElementKind {
    CircularProgress,
    Dialog,
    IconButton,
    LinearProgress,
    ListItem,
    Switch,
    TextField,
}

impl ElementKind {
    /// The DOM tag name of this element kind, dictated by the component
    /// library.
    pub open spec fn spec_tag_name(self) -> Seq<char> {
        match self {
            ElementKind::CircularProgress => "mwc-circular-progress"@,
            ElementKind::Dialog => "mwc-dialog"@,
            ElementKind::IconButton => "mwc-icon-button"@,
            ElementKind::LinearProgress => "mwc-linear-progress"@,
            ElementKind::ListItem => "mwc-list-item"@,
            ElementKind::Switch => "mwc-switch"@,
            ElementKind::TextField => "mwc-textfield"@,
        }
    }

    pub fn tag_name(&self) -> (r: &'static str)
        ensures
            r@ == self.spec_tag_name(),
    {
        match self {
            ElementKind::CircularProgress => "mwc-circular-progress",
            ElementKind::Dialog => "mwc-dialog",
            ElementKind::IconButton => "mwc-icon-button",
            ElementKind::LinearProgress => "mwc-linear-progress",
            ElementKind::ListItem => "mwc-list-item",
            ElementKind::Switch => "mwc-switch",
            ElementKind::TextField => "mwc-textfield",
        }
    }
}

/// Every attribute name an adapter can project, across all element kinds.
#[derive(Clone, Copy, PartialEq, Eq, Structural, Debug)]
pub enum AttrName {
    Class,
    Open,
    HideActions,
    Stacked,
    Heading,
    ScrimClickAction,
    EscapeKeyAction,
    DefaultAction,
    ActionAttribute,
    InitialFocusAttribute,
    Disabled,
    Value,
    Group,
    Tabindex,
    Twoline,
    Activated,
    Graphic,
    MultipleGraphics,
    HasMeta,
    Noninteractive,
    Selected,
    Label,
    Placeholder,
    Prefix,
    Suffix,
    Icon,
    IconTrailing,
    CharCounter,
    Outlined,
    Helper,
    HelperPersistent,
    Required,
    MaxLength,
    ValidationMessage,
    Pattern,
    Min,
    Max,
    Size,
    Step,
    AutoValidate,
    ValidateOnInitialRender,
    Name,
    Indeterminate,
    Progress,
    Buffer,
    Reverse,
    Density,
    Closed,
}

impl AttrName {
    /// The attribute's DOM spelling; names and casing are a fixed contract
    /// with the component library.
    pub open spec fn spec_dom_name(self) -> Seq<char> {
        match self {
            AttrName::Class => "class"@,
            AttrName::Open => "open"@,
            AttrName::HideActions => "hideActions"@,
            AttrName::Stacked => "stacked"@,
            AttrName::Heading => "heading"@,
            AttrName::ScrimClickAction => "scrimClickAction"@,
            AttrName::EscapeKeyAction => "escapeKeyAction"@,
            AttrName::DefaultAction => "defaultAction"@,
            AttrName::ActionAttribute => "actionAttribute"@,
            AttrName::InitialFocusAttribute => "initialFocusAttribute"@,
            AttrName::Disabled => "disabled"@,
            AttrName::Value => "value"@,
            AttrName::Group => "group"@,
            AttrName::Tabindex => "tabindex"@,
            AttrName::Twoline => "twoline"@,
            AttrName::Activated => "activated"@,
            AttrName::Graphic => "graphic"@,
            AttrName::MultipleGraphics => "multipleGraphics"@,
            AttrName::HasMeta => "hasMeta"@,
            AttrName::Noninteractive => "noninteractive"@,
            AttrName::Selected => "selected"@,
            AttrName::Label => "label"@,
            AttrName::Placeholder => "placeholder"@,
            AttrName::Prefix => "prefix"@,
            AttrName::Suffix => "suffix"@,
            AttrName::Icon => "icon"@,
            AttrName::IconTrailing => "iconTrailing"@,
            AttrName::CharCounter => "charCounter"@,
            AttrName::Outlined => "outlined"@,
            AttrName::Helper => "helper"@,
            AttrName::HelperPersistent => "helperPersistent"@,
            AttrName::Required => "required"@,
            AttrName::MaxLength => "maxlength"@,
            AttrName::ValidationMessage => "validationMessage"@,
            AttrName::Pattern => "pattern"@,
            AttrName::Min => "min"@,
            AttrName::Max => "max"@,
            AttrName::Size => "size"@,
            AttrName::Step => "step"@,
            AttrName::AutoValidate => "autoValidate"@,
            AttrName::ValidateOnInitialRender => "validateOnInitialRender"@,
            AttrName::Name => "name"@,
            AttrName::Indeterminate => "indeterminate"@,
            AttrName::Progress => "progress"@,
            AttrName::Buffer => "buffer"@,
            AttrName::Reverse => "reverse"@,
            AttrName::Density => "density"@,
            AttrName::Closed => "closed"@,
        }
    }

    pub fn dom_name(&self) -> (r: &'static str)
        ensures
            r@ == self.spec_dom_name(),
    {
        match self {
            AttrName::Class => "class",
            AttrName::Open => "open",
            AttrName::HideActions => "hideActions",
            AttrName::Stacked => "stacked",
            AttrName::Heading => "heading",
            AttrName::ScrimClickAction => "scrimClickAction",
            AttrName::EscapeKeyAction => "escapeKeyAction",
            AttrName::DefaultAction => "defaultAction",
            AttrName::ActionAttribute => "actionAttribute",
            AttrName::InitialFocusAttribute => "initialFocusAttribute",
            AttrName::Disabled => "disabled",
            AttrName::Value => "value",
            AttrName::Group => "group",
            AttrName::Tabindex => "tabindex",
            AttrName::Twoline => "twoline",
            AttrName::Activated => "activated",
            AttrName::Graphic => "graphic",
            AttrName::MultipleGraphics => "multipleGraphics",
            AttrName::HasMeta => "hasMeta",
            AttrName::Noninteractive => "noninteractive",
            AttrName::Selected => "selected",
            AttrName::Label => "label",
            AttrName::Placeholder => "placeholder",
            AttrName::Prefix => "prefix",
            AttrName::Suffix => "suffix",
            AttrName::Icon => "icon",
            AttrName::IconTrailing => "iconTrailing",
            AttrName::CharCounter => "charCounter",
            AttrName::Outlined => "outlined",
            AttrName::Helper => "helper",
            AttrName::HelperPersistent => "helperPersistent",
            AttrName::Required => "required",
            AttrName::MaxLength => "maxlength",
            AttrName::ValidationMessage => "validationMessage",
            AttrName::Pattern => "pattern",
            AttrName::Min => "min",
            AttrName::Max => "max",
            AttrName::Size => "size",
            AttrName::Step => "step",
            AttrName::AutoValidate => "autoValidate",
            AttrName::ValidateOnInitialRender => "validateOnInitialRender",
            AttrName::Name => "name",
            AttrName::Indeterminate => "indeterminate",
            AttrName::Progress => "progress",
            AttrName::Buffer => "buffer",
            AttrName::Reverse => "reverse",
            AttrName::Density => "density",
            AttrName::Closed => "closed",
        }
    }
}

/// One attribute present on a host element.  A boolean flag that is on is
/// present with the empty value; a flag that is off is not in the list at
/// all.
#[derive(Debug, Clone, PartialEq)]
pub struct Attribute {
    pub name: AttrName,
    pub value: String,
}

/// The mathematical model of an attribute list: name/value pairs in render
/// order.
pub open spec fn attrs_model(s: Seq<Attribute>) -> Seq<(AttrName, Seq<char>)> {
    s.map_values(|a: Attribute| (a.name, a.value@))
}

/// Projection of a string-valued property: always present, the empty string
/// being a value of its own, distinct from absence.
pub open spec fn spec_string_attr(n: AttrName, v: Seq<char>) -> Seq<(AttrName, Seq<char>)> {
    seq![(n, v)]
}

/// Projection of a boolean flag: present with the empty value when on,
/// entirely absent when off; never the literal "false".
pub open spec fn spec_flag_attr(n: AttrName, on: bool) -> Seq<(AttrName, Seq<char>)> {
    if on {
        seq![(n, Seq::<char>::empty())]
    } else {
        Seq::empty()
    }
}

/// Projection of an optional string property: absent at the unset sentinel.
pub open spec fn spec_opt_string_attr(n: AttrName, v: Option<String>) -> Seq<
    (AttrName, Seq<char>),
> {
    match v {
        Some(s) => seq![(n, s@)],
        None => Seq::empty(),
    }
}

/// Projection of an optional unsigned numeric property: absent at the unset
/// sentinel, the decimal string otherwise.
pub open spec fn spec_opt_u64_attr(n: AttrName, v: Option<u64>) -> Seq<(AttrName, Seq<char>)> {
    match v {
        Some(x) => seq![(n, spec_udec(x as nat))],
        None => Seq::empty(),
    }
}

/// Projection of an optional signed numeric property: absent at the unset
/// sentinel, the decimal string otherwise.
pub open spec fn spec_opt_i64_attr(n: AttrName, v: Option<i64>) -> Seq<(AttrName, Seq<char>)> {
    match v {
        Some(x) => seq![(n, spec_idec(x as int))],
        None => Seq::empty(),
    }
}

/// Projection of a signed numeric property with no unset sentinel: always
/// present as its decimal string.
pub open spec fn spec_i32_attr(n: AttrName, v: i32) -> Seq<(AttrName, Seq<char>)> {
    seq![(n, spec_idec(v as int))]
}

/// Projection of an unsigned numeric property with no unset sentinel:
/// always present as its decimal string.
pub open spec fn spec_u32_attr(n: AttrName, v: u32) -> Seq<(AttrName, Seq<char>)> {
    seq![(n, spec_udec(v as nat))]
}

/// Whether the model carries an attribute under the given name.
pub open spec fn model_has_attr(m: Seq<(AttrName, Seq<char>)>, n: AttrName) -> bool {
    exists|i: int| 0 <= i < m.len() && m[i].0 == n
}

proof fn lemma_attrs_model_push(s: Seq<Attribute>, a: Attribute)
    ensures
        attrs_model(s.push(a)) == attrs_model(s) + seq![(a.name, a.value@)],
{
    assert(attrs_model(s.push(a)) =~= attrs_model(s) + seq![(a.name, a.value@)]);
}

/// Appends a string-valued attribute to an element description being built.
pub fn push_string_attr(attrs: &mut Vec<Attribute>, n: AttrName, v: &String)
    ensures
        attrs_model(final(attrs)@) == attrs_model(old(attrs)@) + spec_string_attr(n, v@),
{
    let a = Attribute { name: n, value: v.clone() };
    proof {
        lemma_attrs_model_push(attrs@, a);
    }
    attrs.push(a);
}

/// Appends a boolean flag: pushed with the empty value when on, left out when
/// off.
pub fn push_flag_attr(attrs: &mut Vec<Attribute>, n: AttrName, on: bool)
    ensures
        attrs_model(final(attrs)@) == attrs_model(old(attrs)@) + spec_flag_attr(n, on),
{
    if on {
        let a = Attribute { name: n, value: String::new() };
        proof {
            lemma_attrs_model_push(attrs@, a);
        }
        attrs.push(a);
    } else {
        proof {
            assert(attrs_model(attrs@) =~= attrs_model(attrs@) + spec_flag_attr(n, on));
        }
    }
}

/// Appends an optional string attribute: left out at the unset sentinel.
pub fn push_opt_string_attr(attrs: &mut Vec<Attribute>, n: AttrName, v: &Option<String>)
    ensures
        attrs_model(final(attrs)@) == attrs_model(old(attrs)@) + spec_opt_string_attr(
            n,
            *v,
        ),
{
    match v {
        Some(s) => {
            let a = Attribute { name: n, value: s.clone() };
            proof {
                lemma_attrs_model_push(attrs@, a);
            }
            attrs.push(a);
        },
        None => {
            proof {
                assert(attrs_model(attrs@) =~= attrs_model(attrs@) + spec_opt_string_attr(n, *v));
            }
        },
    }
}

/// Appends an optional unsigned numeric attribute as its decimal string,
/// left out at the unset sentinel.
pub fn push_opt_u64_attr(attrs: &mut Vec<Attribute>, n: AttrName, v: &Option<u64>)
    ensures
        attrs_model(final(attrs)@) == attrs_model(old(attrs)@) + spec_opt_u64_attr(n, *v),
{
    match v {
        Some(x) => {
            let a = Attribute { name: n, value: u64_to_dec_string(*x) };
            proof {
                lemma_attrs_model_push(attrs@, a);
            }
            attrs.push(a);
        },
        None => {
            proof {
                assert(attrs_model(attrs@) =~= attrs_model(attrs@) + spec_opt_u64_attr(n, *v));
            }
        },
    }
}

/// Appends an optional signed numeric attribute as its decimal string,
/// left out at the unset sentinel.
pub fn push_opt_i64_attr(attrs: &mut Vec<Attribute>, n: AttrName, v: &Option<i64>)
    ensures
        attrs_model(final(attrs)@) == attrs_model(old(attrs)@) + spec_opt_i64_attr(n, *v),
{
    match v {
        Some(x) => {
            let a = Attribute { name: n, value: i64_to_dec_string(*x) };
            proof {
                lemma_attrs_model_push(attrs@, a);
            }
            attrs.push(a);
        },
        None => {
            proof {
                assert(attrs_model(attrs@) =~= attrs_model(attrs@) + spec_opt_i64_attr(n, *v));
            }
        },
    }
}

/// Appends a string attribute from a borrowed slice.
pub fn push_str_attr(attrs: &mut Vec<Attribute>, n: AttrName, v: &str)
    ensures
        attrs_model(final(attrs)@) == attrs_model(old(attrs)@) + spec_string_attr(n, v@),
{
    let a = Attribute { name: n, value: String::from_str(v) };
    proof {
        lemma_attrs_model_push(attrs@, a);
    }
    attrs.push(a);
}

/// Appends an always-present signed numeric attribute as its decimal string.
pub fn push_i32_attr(attrs: &mut Vec<Attribute>, n: AttrName, v: i32)
    ensures
        attrs_model(final(attrs)@) == attrs_model(old(attrs)@) + spec_i32_attr(n, v),
{
    let a = Attribute { name: n, value: i32_to_dec_string(v) };
    proof {
        lemma_attrs_model_push(attrs@, a);
    }
    attrs.push(a);
}

/// Appends an always-present unsigned numeric attribute as its decimal
/// string.
pub fn push_u32_attr(attrs: &mut Vec<Attribute>, n: AttrName, v: u32)
    ensures
        attrs_model(final(attrs)@) == attrs_model(old(attrs)@) + spec_u32_attr(n, v),
{
    let a = Attribute { name: n, value: u32_to_dec_string(v) };
    proof {
        lemma_attrs_model_push(attrs@, a);
    }
    attrs.push(a);
}

/// The pure description of a rendered host element: tag, attribute list and
/// whether child content is nested inside it.
#[derive(Debug)]
pub struct ElementDescription {
    pub tag: ElementKind,
    pub attrs: Vec<Attribute>,
    pub has_children: bool,
}

impl ElementDescription {
    /// The attribute list as its mathematical model.
    pub open spec fn model(self) -> Seq<(AttrName, Seq<char>)> {
        attrs_model(self.attrs@)
    }
}

/// What can go wrong while translating a native event into a framework
/// callback payload.  A malformed payload signals a mismatch with the
/// component library's documented event shape; the adapter fails fast
/// rather than hand a corrupted payload on.
#[derive(Clone, Copy, PartialEq, Eq, Structural, Debug)]
pub enum EventError {
    MalformedPayload,
}

/// Kinds of native events the adapters surface as framework callbacks.
#[derive(Clone, Copy, PartialEq, Eq, Structural, Debug)]
pub enum EventKind {
    Opening,
    Opened,
    Closing,
    Closed,
    Change,
    RequestSelected,
    Input,
}

/// A handle to one installed native-event listener.  An adapter holds at
/// most one per event kind, acquires it on the first render pass, and
/// releases it on teardown.
#[derive(Clone, Copy, PartialEq, Eq, Structural, Debug)]
pub struct ListenerHandle {
    pub event: EventKind,
}

/// Law: property projection is pure and idempotent.  Any two host-element
/// descriptions whose attribute models equal the projection of one property
/// record carry exactly the same attributes, present or absent alike.
pub proof fn lemma_projection_idempotent(
    d1: ElementDescription,
    d2: ElementDescription,
    projected: Seq<(AttrName, Seq<char>)>,
)
    requires
        d1.model() == projected,
        d2.model() == projected,
    ensures
        d1.model() == d2.model(),
        forall|n: AttrName|
            #[trigger] model_has_attr(d1.model(), n) == model_has_attr(d2.model(), n),
{
}

/// Splits attribute presence over the concatenation of two projections.
pub broadcast proof fn lemma_has_attr_concat(
    m1: Seq<(AttrName, Seq<char>)>,
    m2: Seq<(AttrName, Seq<char>)>,
    n: AttrName,
)
    ensures
        #[trigger] model_has_attr(m1 + m2, n) == (model_has_attr(m1, n) || model_has_attr(
            m2,
            n,
        )),
{
    if model_has_attr(m1, n) {
        let i = choose|i: int| 0 <= i < m1.len() && m1[i].0 == n;
        assert((m1 + m2)[i].0 == n);
    }
    if model_has_attr(m2, n) {
        let i = choose|i: int| 0 <= i < m2.len() && m2[i].0 == n;
        assert((m1 + m2)[m1.len() + i].0 == n);
    }
    if model_has_attr(m1 + m2, n) {
        let i = choose|i: int| 0 <= i < (m1 + m2).len() && (m1 + m2)[i].0 == n;
        if i < m1.len() {
            assert(m1[i].0 == n);
        } else {
            assert(m2[i - m1.len()].0 == n);
        }
    }
}

/// Splits attribute membership (name and value both) over concatenation.
pub broadcast proof fn lemma_contains_concat(
    m1: Seq<(AttrName, Seq<char>)>,
    m2: Seq<(AttrName, Seq<char>)>,
    x: (AttrName, Seq<char>),
)
    ensures
        #[trigger] (m1 + m2).contains(x) == (m1.contains(x) || m2.contains(x)),
{
    if m1.contains(x) {
        let i = choose|i: int| 0 <= i < m1.len() && m1[i] == x;
        assert((m1 + m2)[i] == x);
    }
    if m2.contains(x) {
        let i = choose|i: int| 0 <= i < m2.len() && m2[i] == x;
        assert((m1 + m2)[m1.len() + i] == x);
    }
    if (m1 + m2).contains(x) {
        let i = choose|i: int| 0 <= i < (m1 + m2).len() && (m1 + m2)[i] == x;
        if i < m1.len() {
            assert(m1[i] == x);
        } else {
            assert(m2[i - m1.len()] == x);
        }
    }
}

/// A flag projection carries its name exactly when the flag is on.
pub broadcast proof fn lemma_has_attr_flag(n: AttrName, on: bool, probe: AttrName)
    ensures
        #[trigger] model_has_attr(spec_flag_attr(n, on), probe) == (on && n == probe),
{
    if on && n == probe {
        assert(spec_flag_attr(n, on)[0].0 == probe);
    }
    if model_has_attr(spec_flag_attr(n, on), probe) {
        let i = choose|i: int|
            0 <= i < spec_flag_attr(n, on).len() && spec_flag_attr(n, on)[i].0 == probe;
    }
}

/// A string projection always carries exactly its own name.
pub broadcast proof fn lemma_has_attr_string(n: AttrName, v: Seq<char>, probe: AttrName)
    ensures
        #[trigger] model_has_attr(spec_string_attr(n, v), probe) == (n == probe),
{
    if n == probe {
        assert(spec_string_attr(n, v)[0].0 == probe);
    }
    if model_has_attr(spec_string_attr(n, v), probe) {
        let i = choose|i: int|
            0 <= i < spec_string_attr(n, v).len() && spec_string_attr(n, v)[i].0 == probe;
    }
}

/// An optional string projection carries its name exactly when set.
pub broadcast proof fn lemma_has_attr_opt_string(n: AttrName, v: Option<String>, probe: AttrName)
    ensures
        #[trigger] model_has_attr(spec_opt_string_attr(n, v), probe) == (v is Some && n
            == probe),
{
    if v is Some && n == probe {
        assert(spec_opt_string_attr(n, v)[0].0 == probe);
    }
    if model_has_attr(spec_opt_string_attr(n, v), probe) {
        let i = choose|i: int|
            0 <= i < spec_opt_string_attr(n, v).len() && spec_opt_string_attr(n, v)[i].0 == probe;
    }
}

/// An optional unsigned numeric projection carries its name exactly when
/// set, and then holds the decimal string of its value.
pub broadcast proof fn lemma_has_attr_opt_u64(n: AttrName, v: Option<u64>, probe: AttrName)
    ensures
        #[trigger] model_has_attr(spec_opt_u64_attr(n, v), probe) == (v is Some && n == probe),
        v is Some ==> spec_opt_u64_attr(n, v).contains((n, spec_udec(v->0 as nat))),
{
    if v is Some {
        assert(spec_opt_u64_attr(n, v)[0] == (n, spec_udec(v->0 as nat)));
        if n == probe {
            assert(spec_opt_u64_attr(n, v)[0].0 == probe);
        }
    }
    if model_has_attr(spec_opt_u64_attr(n, v), probe) {
        let i = choose|i: int|
            0 <= i < spec_opt_u64_attr(n, v).len() && spec_opt_u64_attr(n, v)[i].0 == probe;
    }
}

/// An always-present signed numeric projection carries exactly its own
/// name, holding the decimal string of its value.
pub broadcast proof fn lemma_has_attr_i32(n: AttrName, v: i32, probe: AttrName)
    ensures
        #[trigger] model_has_attr(spec_i32_attr(n, v), probe) == (n == probe),
        spec_i32_attr(n, v).contains((n, spec_idec(v as int))),
{
    assert(spec_i32_attr(n, v)[0] == (n, spec_idec(v as int)));
    if n == probe {
        assert(spec_i32_attr(n, v)[0].0 == probe);
    }
    if model_has_attr(spec_i32_attr(n, v), probe) {
        let i = choose|i: int|
            0 <= i < spec_i32_attr(n, v).len() && spec_i32_attr(n, v)[i].0 == probe;
    }
}

/// An always-present unsigned numeric projection carries exactly its own
/// name, holding the decimal string of its value.
pub broadcast proof fn lemma_has_attr_u32(n: AttrName, v: u32, probe: AttrName)
    ensures
        #[trigger] model_has_attr(spec_u32_attr(n, v), probe) == (n == probe),
        spec_u32_attr(n, v).contains((n, spec_udec(v as nat))),
{
    assert(spec_u32_attr(n, v)[0] == (n, spec_udec(v as nat)));
    if n == probe {
        assert(spec_u32_attr(n, v)[0].0 == probe);
    }
    if model_has_attr(spec_u32_attr(n, v), probe) {
        let i = choose|i: int|
            0 <= i < spec_u32_attr(n, v).len() && spec_u32_attr(n, v)[i].0 == probe;
    }
}

/// An optional signed numeric projection carries its name exactly when set,
/// and then holds the decimal string of its value.
pub broadcast proof fn lemma_has_attr_opt_i64(n: AttrName, v: Option<i64>, probe: AttrName)
    ensures
        #[trigger] model_has_attr(spec_opt_i64_attr(n, v), probe) == (v is Some && n == probe),
        v is Some ==> spec_opt_i64_attr(n, v).contains((n, spec_idec(v->0 as int))),
{
    if v is Some {
        assert(spec_opt_i64_attr(n, v)[0] == (n, spec_idec(v->0 as int)));
        if n == probe {
            assert(spec_opt_i64_attr(n, v)[0].0 == probe);
        }
    }
    if model_has_attr(spec_opt_i64_attr(n, v), probe) {
        let i = choose|i: int|
            0 <= i < spec_opt_i64_attr(n, v).len() && spec_opt_i64_attr(n, v)[i].0 == probe;
    }
}

} // verus!
