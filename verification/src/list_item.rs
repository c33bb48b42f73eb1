//! The `mwc-list-item` adapter: one selectable row, surfacing the
//! element's `request-selected` event as a typed detail payload.

use vstd::prelude::*;
use vstd::string::StringExecFns;
use crate::host::{
    Attribute, AttrName, ElementDescription, ElementKind, EventError, EventKind, ListenerHandle,
    attrs_model, model_has_attr, push_flag_attr, push_i32_attr, push_str_attr, push_string_attr,
    spec_flag_attr, spec_i32_attr, spec_string_attr, lemma_has_attr_concat, lemma_has_attr_flag,
    lemma_has_attr_i32, lemma_has_attr_string,
};
use crate::registry::LoaderRegistry;

verus! {

/// Where a selection request originated, as the component library reports
/// it in the event detail.
#[derive(Clone, Copy, PartialEq, Eq, Structural, Debug)]
pub enum RequestSelectedSource {
    /// The user interacted with the item.
    Interaction,
    /// The item's `selected` property was set programmatically.
    Property,
}

/// The typed payload of a `request-selected` event.
#[derive(Clone, Copy, PartialEq, Eq, Structural, Debug)]
pub struct RequestSelectedDetail {
    pub selected: bool,
    pub source: RequestSelectedSource,
}

/// The selection source named by the given detail string, if it is one the
/// component library documents.
pub open spec fn spec_source_of(s: Seq<char>) -> Option<RequestSelectedSource> {
    if s == "interaction"@ {
        Some(RequestSelectedSource::Interaction)
    } else if s == "property"@ {
        Some(RequestSelectedSource::Property)
    } else {
        None
    }
}

/// Reads the typed payload out of the raw fields of a `request-selected`
/// event detail.  Any missing field or unknown source string is a
/// malformed payload and is rejected rather than passed on.
pub fn parse_request_selected_detail(selected: Option<bool>, source: Option<&String>) -> (r:
    Result<RequestSelectedDetail, EventError>)
    ensures
        r == (match (selected, source) {
            (Some(sel), Some(src)) => match spec_source_of(src@) {
                Some(sc) => Ok::<RequestSelectedDetail, EventError>(
                    RequestSelectedDetail { selected: sel, source: sc },
                ),
                None => Err::<RequestSelectedDetail, EventError>(EventError::MalformedPayload),
            },
            _ => Err::<RequestSelectedDetail, EventError>(EventError::MalformedPayload),
        }),
{
    match (selected, source) {
        (Some(sel), Some(src)) => {
            let interaction = String::from_str("interaction");
            let property = String::from_str("property");
            if *src == interaction {
                Ok(RequestSelectedDetail { selected: sel, source: RequestSelectedSource::Interaction })
            } else if *src == property {
                Ok(RequestSelectedDetail { selected: sel, source: RequestSelectedSource::Property })
            } else {
                Err(EventError::MalformedPayload)
            }
        },
        _ => Err(EventError::MalformedPayload),
    }
}

/// Props for [`MatListItem`].  The embedder keeps the `request-selected`
/// callback slot; the adapter hands it the payload through
/// [`MatListItem::deliver_request_selected`].
#[derive(Debug, Clone)]
pub struct ListItemProps {
    pub classes: String,
    pub value: String,
    pub group: bool,
    pub tabindex: i32,
    pub disabled: bool,
    pub twoline: bool,
    pub activated: bool,
    pub graphic: GraphicType,
    pub multiple_graphics: bool,
    pub has_meta: bool,
    pub noninteractive: bool,
    pub selected: bool,
    /// Whether child content (the item's text) is nested inside the host
    /// element.
    pub children: bool,
}

impl Default for ListItemProps {
    /// Flags default to off, `tabindex` to -1 and `graphic` to its null
    /// placeholder, as the component library documents.
    fn default() -> (r: Self)
        ensures
            r.classes@ == Seq::<char>::empty(),
            r.value@ == Seq::<char>::empty(),
            !r.group,
            r.tabindex == -1,
            !r.disabled,
            !r.twoline,
            !r.activated,
            r.graphic == GraphicType::Null,
            !r.multiple_graphics,
            !r.has_meta,
            !r.noninteractive,
            !r.selected,
            !r.children,
    {
        ListItemProps {
            classes: String::new(),
            value: String::new(),
            group: false,
            tabindex: -1,
            disabled: false,
            twoline: false,
            activated: false,
            graphic: GraphicType::Null,
            multiple_graphics: false,
            has_meta: false,
            noninteractive: false,
            selected: false,
            children: false,
        }
    }
}

/// The graphic slot shape a list item reserves, as the component library
/// names them.
#[derive(Clone, Copy, PartialEq, Eq, Structural, Debug)]
pub enum GraphicType {
    Avatar,
    Icon,
    Medium,
    Large,
    Control,
    Null,
}

impl GraphicType {
    /// The detail string the attribute carries for this graphic shape.
    pub open spec fn spec_str(self) -> Seq<char> {
        match self {
            GraphicType::Avatar => "avatar"@,
            GraphicType::Icon => "icon"@,
            GraphicType::Medium => "medium"@,
            GraphicType::Large => "large"@,
            GraphicType::Control => "control"@,
            GraphicType::Null => "null"@,
        }
    }

    pub fn as_str(&self) -> (r: &'static str)
        ensures
            r@ == self.spec_str(),
    {
        match self {
            GraphicType::Avatar => "avatar",
            GraphicType::Icon => "icon",
            GraphicType::Medium => "medium",
            GraphicType::Large => "large",
            GraphicType::Control => "control",
            GraphicType::Null => "null",
        }
    }
}

/// The `mwc-list-item` adapter.
pub struct MatListItem {
    pub props: ListItemProps,
    pub host_attached: bool,
    pub request_selected_listener: Option<ListenerHandle>,
    /// How many listener installations this instance has performed.
    pub installs: u64,
}

impl MatListItem {
    /// The projection of the property record onto host-element attributes.
    /// `tabindex` and `graphic` have no unset sentinel: they are always
    /// rendered, `tabindex` as its decimal string.
    pub open spec fn spec_attrs(p: ListItemProps) -> Seq<(AttrName, Seq<char>)> {
        spec_string_attr(AttrName::Class, p.classes@) + spec_string_attr(
            AttrName::Value,
            p.value@,
        ) + spec_flag_attr(AttrName::Group, p.group) + spec_i32_attr(AttrName::Tabindex, p.tabindex)
            + spec_flag_attr(AttrName::Disabled, p.disabled) + spec_flag_attr(
            AttrName::Twoline,
            p.twoline,
        ) + spec_flag_attr(AttrName::Activated, p.activated) + spec_string_attr(
            AttrName::Graphic,
            p.graphic.spec_str(),
        ) + spec_flag_attr(AttrName::MultipleGraphics, p.multiple_graphics) + spec_flag_attr(
            AttrName::HasMeta,
            p.has_meta,
        ) + spec_flag_attr(AttrName::Noninteractive, p.noninteractive) + spec_flag_attr(
            AttrName::Selected,
            p.selected,
        )
    }

    /// Creates the adapter and records its element kind with the registry.
    /// The returned flag says whether the backing script must be loaded now.
    pub fn create(props: ListItemProps, registry: &mut LoaderRegistry) -> (r: (Self, bool))
        ensures
            r.0.props == props,
            r.0.request_selected_listener is None,
            !r.0.host_attached,
            r.0.installs == 0,
            final(registry).loaded_set() == old(registry).loaded_set().insert(
                ElementKind::ListItem,
            ),
            r.1 == !old(registry).loaded_set().contains(ElementKind::ListItem),
    {
        let attempt = registry.register(ElementKind::ListItem);
        (
            MatListItem {
                props,
                host_attached: false,
                request_selected_listener: None,
                installs: 0,
            },
            attempt,
        )
    }

    /// Messages never re-render this adapter.
    pub fn update(&mut self, _msg: ()) -> (render: bool)
        ensures
            *final(self) == *old(self),
            !render,
    {
        false
    }

    /// Accepts a new property record and asks for a re-render; listeners
    /// and one-time state are untouched.
    pub fn change(&mut self, props: ListItemProps) -> (render: bool)
        ensures
            final(self).props == props,
            final(self).request_selected_listener == old(self).request_selected_listener,
            final(self).host_attached == old(self).host_attached,
            final(self).installs == old(self).installs,
            render,
    {
        self.props = props;
        true
    }

    /// The pure projection of the property record onto a host-element
    /// description, child content nested inside.
    pub fn view(&self) -> (d: ElementDescription)
        ensures
            d.tag == ElementKind::ListItem,
            d.model() == Self::spec_attrs(self.props),
            d.has_children == self.props.children,
    {
        let mut attrs: Vec<Attribute> = Vec::new();
        push_string_attr(&mut attrs, AttrName::Class, &self.props.classes);
        push_string_attr(&mut attrs, AttrName::Value, &self.props.value);
        push_flag_attr(&mut attrs, AttrName::Group, self.props.group);
        push_i32_attr(&mut attrs, AttrName::Tabindex, self.props.tabindex);
        push_flag_attr(&mut attrs, AttrName::Disabled, self.props.disabled);
        push_flag_attr(&mut attrs, AttrName::Twoline, self.props.twoline);
        push_flag_attr(&mut attrs, AttrName::Activated, self.props.activated);
        push_str_attr(&mut attrs, AttrName::Graphic, self.props.graphic.as_str());
        push_flag_attr(&mut attrs, AttrName::MultipleGraphics, self.props.multiple_graphics);
        push_flag_attr(&mut attrs, AttrName::HasMeta, self.props.has_meta);
        push_flag_attr(&mut attrs, AttrName::Noninteractive, self.props.noninteractive);
        push_flag_attr(&mut attrs, AttrName::Selected, self.props.selected);
        proof {
            assert(attrs_model(attrs@) =~= Self::spec_attrs(self.props));
        }
        ElementDescription {
            tag: ElementKind::ListItem,
            attrs,
            has_children: self.props.children,
        }
    }

    /// The framework has committed a render: the host node exists from now
    /// on.
    pub fn host_mounted(&mut self)
        ensures
            final(self).host_attached,
            final(self).props == old(self).props,
            final(self).request_selected_listener == old(self).request_selected_listener,
            final(self).installs == old(self).installs,
    {
        self.host_attached = true;
    }

    /// Post-render synchronization: reports whether a `request-selected`
    /// listener is to be installed now (only where none is active; a live
    /// listener is never replaced).
    pub fn rendered(&mut self, _first_render: bool) -> (install: bool)
        requires
            old(self).host_attached,
            old(self).installs < u64::MAX,
        ensures
            final(self).props == old(self).props,
            final(self).host_attached,
            install == (old(self).request_selected_listener is None),
            old(self).request_selected_listener is Some ==> final(self).request_selected_listener
                == old(self).request_selected_listener && final(self).installs == old(self).installs,
            old(self).request_selected_listener is None ==> final(self).request_selected_listener
                == Some(ListenerHandle { event: EventKind::RequestSelected })
                && final(self).installs == old(self).installs + 1,
    {
        let install = self.request_selected_listener.is_none();
        if install {
            self.request_selected_listener = Some(
                ListenerHandle { event: EventKind::RequestSelected },
            );
            self.installs = self.installs + 1;
        }
        install
    }

    /// Hands a native `request-selected` event to the adapter, with the raw
    /// fields of its detail payload.  While a listener is active the typed
    /// payload is owed to the framework callback, a malformed payload
    /// failing fast; without a listener (in particular after teardown)
    /// nothing is invoked and nothing is parsed.
    pub fn deliver_request_selected(&self, selected: Option<bool>, source: Option<&String>) -> (r:
        Result<Option<RequestSelectedDetail>, EventError>)
        ensures
            self.request_selected_listener is None ==> r == Ok::<
                Option<RequestSelectedDetail>,
                EventError,
            >(None::<RequestSelectedDetail>),
            self.request_selected_listener is Some ==> r == (match (selected, source) {
                (Some(sel), Some(src)) => match spec_source_of(src@) {
                    Some(sc) => Ok::<Option<RequestSelectedDetail>, EventError>(
                        Some(RequestSelectedDetail { selected: sel, source: sc }),
                    ),
                    None => Err::<Option<RequestSelectedDetail>, EventError>(
                        EventError::MalformedPayload,
                    ),
                },
                _ => Err::<Option<RequestSelectedDetail>, EventError>(
                    EventError::MalformedPayload,
                ),
            }),
    {
        if self.request_selected_listener.is_some() {
            match parse_request_selected_detail(selected, source) {
                Ok(d) => Ok(Some(d)),
                Err(e) => Err(e),
            }
        } else {
            Ok(None)
        }
    }

    /// Teardown: releases the listener and gives up the host node,
    /// synchronously and completely.
    pub fn destroy(&mut self)
        ensures
            final(self).request_selected_listener is None,
            !final(self).host_attached,
            final(self).props == old(self).props,
            final(self).installs == old(self).installs,
    {
        self.request_selected_listener = None;
        self.host_attached = false;
    }
}

/// Law: the list item's boolean flags project to attribute presence
/// exactly, and `tabindex` is always rendered as its decimal string, its
/// default -1 included (it has no unset sentinel).
#[verifier::rlimit(60)]
pub proof fn lemma_list_item_flag_projection(p: ListItemProps)
    ensures
        model_has_attr(MatListItem::spec_attrs(p), AttrName::Group) == p.group,
        model_has_attr(MatListItem::spec_attrs(p), AttrName::Disabled) == p.disabled,
        model_has_attr(MatListItem::spec_attrs(p), AttrName::Twoline) == p.twoline,
        model_has_attr(MatListItem::spec_attrs(p), AttrName::Activated) == p.activated,
        model_has_attr(MatListItem::spec_attrs(p), AttrName::Selected) == p.selected,
        model_has_attr(MatListItem::spec_attrs(p), AttrName::Tabindex),
{
    broadcast use
        lemma_has_attr_concat,
        lemma_has_attr_flag,
        lemma_has_attr_string,
        lemma_has_attr_i32;

}

} // verus!
