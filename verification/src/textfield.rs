//! The `mwc-textfield` adapter: a single-line input whose `type` and
//! `value` are synchronized imperatively after every render commit, with an
//! `input` listener and a one-time validity-transform installation on first
//! render only.

use vstd::prelude::*;
use vstd::string::StringExecFns;
use crate::decimal::{spec_udec, spec_idec};
use crate::host::{
    Attribute, AttrName, ElementDescription, ElementKind, EventKind, ListenerHandle, attrs_model,
    model_has_attr, push_flag_attr, push_opt_i64_attr, push_opt_u64_attr, push_string_attr,
    spec_flag_attr, spec_opt_i64_attr, spec_opt_u64_attr, spec_string_attr, lemma_has_attr_concat,
    lemma_contains_concat, lemma_has_attr_flag, lemma_has_attr_opt_i64, lemma_has_attr_opt_u64,
    lemma_has_attr_string,
};
use crate::registry::LoaderRegistry;

verus! {

/// The input types the text field can take, as the component library names
/// them.
#[derive(Clone, Copy, PartialEq, Eq, Structural, Debug)]
pub enum TextFieldType {
    Text,
    Search,
    Tel,
    Url,
    Email,
    Password,
    Date,
    Month,
    Week,
    Time,
    DatetimeLocal,
    Number,
    Color,
}

impl TextFieldType {
    /// The string written to the element's native `type` property.
    pub open spec fn spec_str(self) -> Seq<char> {
        match self {
            TextFieldType::Text => "text"@,
            TextFieldType::Search => "search"@,
            TextFieldType::Tel => "tel"@,
            TextFieldType::Url => "url"@,
            TextFieldType::Email => "email"@,
            TextFieldType::Password => "password"@,
            TextFieldType::Date => "date"@,
            TextFieldType::Month => "month"@,
            TextFieldType::Week => "week"@,
            TextFieldType::Time => "time"@,
            TextFieldType::DatetimeLocal => "datetime-local"@,
            TextFieldType::Number => "number"@,
            TextFieldType::Color => "color"@,
        }
    }

    pub fn as_str(&self) -> (r: &'static str)
        ensures
            r@ == self.spec_str(),
    {
        match self {
            TextFieldType::Text => "text",
            TextFieldType::Search => "search",
            TextFieldType::Tel => "tel",
            TextFieldType::Url => "url",
            TextFieldType::Email => "email",
            TextFieldType::Password => "password",
            TextFieldType::Date => "date",
            TextFieldType::Month => "month",
            TextFieldType::Week => "week",
            TextFieldType::Time => "time",
            TextFieldType::DatetimeLocal => "datetime-local",
            TextFieldType::Number => "number",
            TextFieldType::Color => "color",
        }
    }
}

/// A validity-transform slot.  The embedder keeps the transform function
/// itself; the adapter only decides when it is installed (on the first
/// render pass, exactly once).
#[derive(Clone, Copy, PartialEq, Eq, Structural, Debug)]
pub struct ValidityTransform;

/// Props for [`MatTextField`].  The embedder keeps the `input` callback
/// slot; the adapter hands it the payload through
/// [`MatTextField::deliver_input`].
#[derive(Debug, Clone)]
pub struct TextFieldProps {
    pub classes: String,
    pub open: bool,
    pub value: String,
    pub field_type: TextFieldType,
    pub label: String,
    pub placeholder: String,
    pub prefix: String,
    pub suffix: String,
    pub icon: String,
    pub icon_trailing: String,
    pub disabled: bool,
    pub char_counter: bool,
    pub outlined: bool,
    pub helper: String,
    pub helper_persistent: bool,
    pub required: bool,
    /// Unset means the element enforces no length limit; the sentinel is
    /// distinct from every real limit, zero included.
    pub max_length: Option<u64>,
    pub validation_message: String,
    pub pattern: String,
    pub min: String,
    pub max: String,
    /// Unset means no `size` attribute at all, distinct from any real value.
    pub size: Option<i64>,
    /// Unset means no `step` attribute at all, distinct from any real value.
    pub step: Option<i64>,
    pub auto_validate: bool,
    pub validity_transform: Option<ValidityTransform>,
    pub validate_on_initial_render: bool,
    pub name: String,
}

impl Default for TextFieldProps {
    /// Flags default to off, optional fields to unset, the type to plain
    /// text.
    fn default() -> (r: Self)
        ensures
            r.classes@ == Seq::<char>::empty(),
            !r.open,
            r.value@ == Seq::<char>::empty(),
            r.field_type == TextFieldType::Text,
            r.label@ == Seq::<char>::empty(),
            r.placeholder@ == Seq::<char>::empty(),
            r.prefix@ == Seq::<char>::empty(),
            r.suffix@ == Seq::<char>::empty(),
            r.icon@ == Seq::<char>::empty(),
            r.icon_trailing@ == Seq::<char>::empty(),
            !r.disabled,
            !r.char_counter,
            !r.outlined,
            r.helper@ == Seq::<char>::empty(),
            !r.helper_persistent,
            !r.required,
            r.max_length is None,
            r.validation_message@ == Seq::<char>::empty(),
            r.pattern@ == Seq::<char>::empty(),
            r.min@ == Seq::<char>::empty(),
            r.max@ == Seq::<char>::empty(),
            r.size is None,
            r.step is None,
            !r.auto_validate,
            r.validity_transform is None,
            !r.validate_on_initial_render,
            r.name@ == Seq::<char>::empty(),
    {
        TextFieldProps {
            classes: String::new(),
            open: false,
            value: String::new(),
            field_type: TextFieldType::Text,
            label: String::new(),
            placeholder: String::new(),
            prefix: String::new(),
            suffix: String::new(),
            icon: String::new(),
            icon_trailing: String::new(),
            disabled: false,
            char_counter: false,
            outlined: false,
            helper: String::new(),
            helper_persistent: false,
            required: false,
            max_length: None,
            validation_message: String::new(),
            pattern: String::new(),
            min: String::new(),
            max: String::new(),
            size: None,
            step: None,
            auto_validate: false,
            validity_transform: None,
            validate_on_initial_render: false,
            name: String::new(),
        }
    }
}

/// The imperative follow-up owed after a render commit.
#[derive(Debug)]
pub struct TextFieldEffects {
    /// The string to write to the native `type` property, on every pass.
    pub set_type: String,
    /// The string to write to the native `value` property, on every pass.
    pub set_value: String,
    /// Whether an `input` listener is to be installed now (only where none
    /// is active; a live listener is never replaced).
    pub install_input_listener: bool,
    /// Whether the validity transform is to be installed now: on the first
    /// pass only, and only where the props carry one.  Never re-run on
    /// later renders.
    pub install_validity_transform: bool,
}

/// The `mwc-textfield` adapter.
pub struct MatTextField {
    pub props: TextFieldProps,
    pub host_attached: bool,
    pub input_listener: Option<ListenerHandle>,
    /// Whether the one-time validity-transform installation has been
    /// performed.
    pub validity_transform_installed: bool,
    /// How many listener installations this instance has performed.
    pub installs: u64,
}

impl MatTextField {
    /// The projection of the property record onto host-element attributes.
    /// `type` and `value` are deliberately no attributes: the element only
    /// honours them as native properties, set after each commit.  The
    /// optional numeric fields are omitted entirely at their unset
    /// sentinel and rendered as decimal strings otherwise.
    pub open spec fn spec_attrs(p: TextFieldProps) -> Seq<(AttrName, Seq<char>)> {
        spec_string_attr(AttrName::Class, p.classes@) + spec_flag_attr(AttrName::Open, p.open)
            + spec_string_attr(AttrName::Label, p.label@) + spec_string_attr(
            AttrName::Placeholder,
            p.placeholder@,
        ) + spec_string_attr(AttrName::Prefix, p.prefix@) + spec_string_attr(
            AttrName::Suffix,
            p.suffix@,
        ) + spec_string_attr(AttrName::Icon, p.icon@) + spec_string_attr(
            AttrName::IconTrailing,
            p.icon_trailing@,
        ) + spec_flag_attr(AttrName::Disabled, p.disabled) + spec_flag_attr(
            AttrName::CharCounter,
            p.char_counter,
        ) + spec_flag_attr(AttrName::Outlined, p.outlined) + spec_string_attr(
            AttrName::Helper,
            p.helper@,
        ) + spec_flag_attr(AttrName::HelperPersistent, p.helper_persistent) + spec_flag_attr(
            AttrName::Required,
            p.required,
        ) + spec_opt_u64_attr(AttrName::MaxLength, p.max_length) + spec_string_attr(
            AttrName::ValidationMessage,
            p.validation_message@,
        ) + spec_string_attr(AttrName::Pattern, p.pattern@) + spec_string_attr(
            AttrName::Min,
            p.min@,
        ) + spec_string_attr(AttrName::Max, p.max@) + spec_opt_i64_attr(AttrName::Size, p.size)
            + spec_opt_i64_attr(AttrName::Step, p.step) + spec_flag_attr(
            AttrName::AutoValidate,
            p.auto_validate,
        ) + spec_flag_attr(AttrName::ValidateOnInitialRender, p.validate_on_initial_render)
            + spec_string_attr(AttrName::Name, p.name@)
    }

    /// Creates the adapter and records its element kind with the registry.
    /// The returned flag says whether the backing script must be loaded now.
    pub fn create(props: TextFieldProps, registry: &mut LoaderRegistry) -> (r: (Self, bool))
        ensures
            r.0.props == props,
            r.0.input_listener is None,
            !r.0.validity_transform_installed,
            !r.0.host_attached,
            r.0.installs == 0,
            final(registry).loaded_set() == old(registry).loaded_set().insert(
                ElementKind::TextField,
            ),
            r.1 == !old(registry).loaded_set().contains(ElementKind::TextField),
    {
        let attempt = registry.register(ElementKind::TextField);
        (
            MatTextField {
                props,
                host_attached: false,
                input_listener: None,
                validity_transform_installed: false,
                installs: 0,
            },
            attempt,
        )
    }

    /// What accepting a new property record does to the adapter state:
    /// only the record changes.
    pub open spec fn spec_change(s: MatTextField, p: TextFieldProps) -> MatTextField {
        MatTextField { props: p, ..s }
    }

    /// What post-render synchronization does to the adapter state: an
    /// `input` listener appears only where none was active, the install
    /// count grows only by that installation, and the one-time
    /// validity-transform installation happens on the first pass alone.
    pub open spec fn spec_rendered_state(s: MatTextField, first_render: bool) -> MatTextField {
        MatTextField {
            input_listener: if s.input_listener is None {
                Some(ListenerHandle { event: EventKind::Input })
            } else {
                s.input_listener
            },
            installs: if s.input_listener is None {
                (s.installs + 1) as u64
            } else {
                s.installs
            },
            validity_transform_installed: s.validity_transform_installed || (first_render
                && s.props.validity_transform is Some),
            ..s
        }
    }

    /// Messages never re-render this adapter.
    pub fn update(&mut self, _msg: ()) -> (render: bool)
        ensures
            *final(self) == *old(self),
            !render,
    {
        false
    }

    /// Accepts a new property record and asks for a re-render; listeners
    /// and one-time state are untouched.
    pub fn change(&mut self, props: TextFieldProps) -> (render: bool)
        ensures
            *final(self) == Self::spec_change(*old(self), props),
            final(self).props == props,
            render,
    {
        self.props = props;
        true
    }

    /// The pure projection of the property record onto a host-element
    /// description.
    #[verifier::rlimit(60)]
    pub fn view(&self) -> (d: ElementDescription)
        ensures
            d.tag == ElementKind::TextField,
            d.model() == Self::spec_attrs(self.props),
            !d.has_children,
    {
        let mut attrs: Vec<Attribute> = Vec::new();
        push_string_attr(&mut attrs, AttrName::Class, &self.props.classes);
        push_flag_attr(&mut attrs, AttrName::Open, self.props.open);
        push_string_attr(&mut attrs, AttrName::Label, &self.props.label);
        push_string_attr(&mut attrs, AttrName::Placeholder, &self.props.placeholder);
        push_string_attr(&mut attrs, AttrName::Prefix, &self.props.prefix);
        push_string_attr(&mut attrs, AttrName::Suffix, &self.props.suffix);
        push_string_attr(&mut attrs, AttrName::Icon, &self.props.icon);
        push_string_attr(&mut attrs, AttrName::IconTrailing, &self.props.icon_trailing);
        push_flag_attr(&mut attrs, AttrName::Disabled, self.props.disabled);
        push_flag_attr(&mut attrs, AttrName::CharCounter, self.props.char_counter);
        push_flag_attr(&mut attrs, AttrName::Outlined, self.props.outlined);
        push_string_attr(&mut attrs, AttrName::Helper, &self.props.helper);
        push_flag_attr(&mut attrs, AttrName::HelperPersistent, self.props.helper_persistent);
        push_flag_attr(&mut attrs, AttrName::Required, self.props.required);
        push_opt_u64_attr(&mut attrs, AttrName::MaxLength, &self.props.max_length);
        push_string_attr(&mut attrs, AttrName::ValidationMessage, &self.props.validation_message);
        push_string_attr(&mut attrs, AttrName::Pattern, &self.props.pattern);
        push_string_attr(&mut attrs, AttrName::Min, &self.props.min);
        push_string_attr(&mut attrs, AttrName::Max, &self.props.max);
        push_opt_i64_attr(&mut attrs, AttrName::Size, &self.props.size);
        push_opt_i64_attr(&mut attrs, AttrName::Step, &self.props.step);
        push_flag_attr(&mut attrs, AttrName::AutoValidate, self.props.auto_validate);
        push_flag_attr(
            &mut attrs,
            AttrName::ValidateOnInitialRender,
            self.props.validate_on_initial_render,
        );
        push_string_attr(&mut attrs, AttrName::Name, &self.props.name);
        proof {
            assert(attrs_model(attrs@) =~= Self::spec_attrs(self.props));
        }
        ElementDescription { tag: ElementKind::TextField, attrs, has_children: false }
    }

    /// The framework has committed a render: the host node exists from now
    /// on.
    pub fn host_mounted(&mut self)
        ensures
            final(self).host_attached,
            final(self).props == old(self).props,
            final(self).input_listener == old(self).input_listener,
            final(self).validity_transform_installed == old(self).validity_transform_installed,
            final(self).installs == old(self).installs,
    {
        self.host_attached = true;
    }

    /// Post-render synchronization.  `type` and `value` are written on
    /// every pass; the `input` listener is installed only where none is
    /// active; the validity transform, where the props carry one, is
    /// installed on the first pass only and never re-run on later renders.
    pub fn rendered(&mut self, first_render: bool) -> (e: TextFieldEffects)
        requires
            old(self).host_attached,
            old(self).installs < u64::MAX,
        ensures
            *final(self) == Self::spec_rendered_state(*old(self), first_render),
            e.set_type@ == old(self).props.field_type.spec_str(),
            e.set_value == old(self).props.value,
            e.install_input_listener == (old(self).input_listener is None),
            e.install_validity_transform == (first_render && old(self).props.validity_transform
                is Some),
            old(self).input_listener is None ==> final(self).installs == old(self).installs + 1,
    {
        let install_listener = self.input_listener.is_none();
        if install_listener {
            self.input_listener = Some(ListenerHandle { event: EventKind::Input });
            self.installs = self.installs + 1;
        }
        let install_transform = first_render && self.props.validity_transform.is_some();
        if install_transform {
            self.validity_transform_installed = true;
        }
        TextFieldEffects {
            set_type: String::from_str(self.props.field_type.as_str()),
            set_value: self.props.value.clone(),
            install_input_listener: install_listener,
            install_validity_transform: install_transform,
        }
    }

    /// Hands a native `input` event to the adapter, with the host
    /// element's current value.  The result is the payload the framework
    /// callback is owed: the value while a listener is active, nothing
    /// once the listener is removed (in particular, always nothing after
    /// teardown).
    pub fn deliver_input(&self, target_value: &String) -> (r: Option<String>)
        ensures
            r == (if self.input_listener is Some {
                Some(*target_value)
            } else {
                None::<String>
            }),
    {
        if self.input_listener.is_some() {
            Some(target_value.clone())
        } else {
            None
        }
    }

    /// Teardown: releases the listener, drops the installed validity
    /// transform and gives up the host node, synchronously and completely.
    pub fn destroy(&mut self)
        ensures
            final(self).input_listener is None,
            !final(self).validity_transform_installed,
            !final(self).host_attached,
            final(self).props == old(self).props,
            final(self).installs == old(self).installs,
    {
        self.input_listener = None;
        self.validity_transform_installed = false;
        self.host_attached = false;
    }
}

/// Law: a re-render caused by a property change alone never reinstalls an
/// active listener and never re-runs the one-time validity-transform
/// installation, whatever the new property record holds.
pub proof fn lemma_rerender_reinstalls_nothing(s: MatTextField, p: TextFieldProps)
    requires
        s.input_listener is Some,
    ensures
        MatTextField::spec_rendered_state(MatTextField::spec_change(s, p), false).input_listener
            == s.input_listener,
        MatTextField::spec_rendered_state(MatTextField::spec_change(s, p), false).installs
            == s.installs,
        MatTextField::spec_rendered_state(
            MatTextField::spec_change(s, p),
            false,
        ).validity_transform_installed == s.validity_transform_installed,
{
}

/// Law: a numeric field with an unset sentinel is omitted entirely at the
/// sentinel and rendered as its value's decimal string otherwise; shown
/// here for the text field's `maxlength`.
#[verifier::rlimit(100)]
pub proof fn lemma_textfield_maxlength_projection(p: TextFieldProps)
    ensures
        p.max_length is None ==> !model_has_attr(
            MatTextField::spec_attrs(p),
            AttrName::MaxLength,
        ),
        p.max_length is Some ==> MatTextField::spec_attrs(p).contains(
            (AttrName::MaxLength, spec_udec(p.max_length->0 as nat)),
        ),
{
    broadcast use
        lemma_has_attr_concat,
        lemma_contains_concat,
        lemma_has_attr_flag,
        lemma_has_attr_string,
        lemma_has_attr_opt_u64,
        lemma_has_attr_opt_i64;

    if p.max_length is Some {
        let x = (AttrName::MaxLength, spec_udec(p.max_length->0 as nat));
        assert(spec_opt_u64_attr(AttrName::MaxLength, p.max_length)[0] == x);
        assert(spec_opt_u64_attr(AttrName::MaxLength, p.max_length).contains(x));
    }
}

/// Law: the same sentinel rule for the signed `size` field.
#[verifier::rlimit(100)]
pub proof fn lemma_textfield_size_projection(p: TextFieldProps)
    ensures
        p.size is None ==> !model_has_attr(MatTextField::spec_attrs(p), AttrName::Size),
        p.size is Some ==> MatTextField::spec_attrs(p).contains(
            (AttrName::Size, spec_idec(p.size->0 as int)),
        ),
{
    if p.size is None {
        assert(!model_has_attr(MatTextField::spec_attrs(p), AttrName::Size)) by {
            broadcast use
                lemma_has_attr_concat,
                lemma_has_attr_flag,
                lemma_has_attr_string,
                lemma_has_attr_opt_u64,
                lemma_has_attr_opt_i64;

        }
    } else {
        let x = (AttrName::Size, spec_idec(p.size->0 as int));
        assert(spec_opt_i64_attr(AttrName::Size, p.size).contains(x)) by {
            assert(spec_opt_i64_attr(AttrName::Size, p.size)[0] == x);
        }
        assert(MatTextField::spec_attrs(p).contains(x)) by {
            broadcast use lemma_contains_concat;

        }
    }
}

/// Law: the same sentinel rule for the signed `step` field.
#[verifier::rlimit(100)]
pub proof fn lemma_textfield_step_projection(p: TextFieldProps)
    ensures
        p.step is None ==> !model_has_attr(MatTextField::spec_attrs(p), AttrName::Step),
        p.step is Some ==> MatTextField::spec_attrs(p).contains(
            (AttrName::Step, spec_idec(p.step->0 as int)),
        ),
{
    if p.step is None {
        assert(!model_has_attr(MatTextField::spec_attrs(p), AttrName::Step)) by {
            broadcast use
                lemma_has_attr_concat,
                lemma_has_attr_flag,
                lemma_has_attr_string,
                lemma_has_attr_opt_u64,
                lemma_has_attr_opt_i64;

        }
    } else {
        let x = (AttrName::Step, spec_idec(p.step->0 as int));
        assert(spec_opt_i64_attr(AttrName::Step, p.step).contains(x)) by {
            assert(spec_opt_i64_attr(AttrName::Step, p.step)[0] == x);
        }
        assert(MatTextField::spec_attrs(p).contains(x)) by {
            broadcast use lemma_contains_concat;

        }
    }
}

} // verus!
