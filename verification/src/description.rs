//! What the element tells the media framework about itself.
use crate::settings::{accepts, default_settings, kind_of_name, property_of, with_property};
use crate::settings::lemma_property_names;
use crate::settings::{PropertyValue, PropertyValueView, Settings, SettingsView};
use crate::settings::{DEFAULT_PORT, DEFAULT_STUN_SERVER};
use vstd::prelude::*;

verus! {

/// The values that a property takes, and its default.
#[derive(Debug, Clone, Copy)]
pub enum PropertyRange {
    UInt { minimum: u32, maximum: u32, default: u32 },
    /// Any text; this is the default.
    Text(&'static str),
    /// A flag; this is the default.
    Flag(bool),
}

/// A property of the element.
#[derive(Debug, Clone, Copy)]
pub struct PropertySpec {
    pub name: &'static str,
    pub nick: &'static str,
    pub blurb: &'static str,
    pub range: PropertyRange,
}

/// The properties of the element.
pub open spec fn property_specs() -> Seq<PropertySpec> {
    seq![
        PropertySpec {
            name: "port",
            nick: "HTTP Port",
            blurb: "Port to use for the HTTP server (0 for auto)",
            range: PropertyRange::UInt { minimum: 0, maximum: 65535, default: 8091 },
        },
        PropertySpec {
            name: "stun-server",
            nick: "STUN Server",
            blurb: "STUN server to use for WebRTC (empty for none)",
            range: PropertyRange::Text("stun:stun.l.google.com:19302"),
        },
        PropertySpec {
            name: "is-live",
            nick: "Live Mode",
            blurb: "Whether to block Render without peers (default: false)",
            range: PropertyRange::Flag(false),
        },
    ]
}

/// Lists the element's properties.
pub fn properties() -> (properties: Vec<PropertySpec>)
    ensures
        properties@ == property_specs(),
{
    let mut properties: Vec<PropertySpec> = Vec::new();
    properties.push(
        PropertySpec {
            name: "port",
            nick: "HTTP Port",
            blurb: "Port to use for the HTTP server (0 for auto)",
            range: PropertyRange::UInt { minimum: 0, maximum: 65535, default: DEFAULT_PORT as u32 },
        },
    );
    properties.push(
        PropertySpec {
            name: "stun-server",
            nick: "STUN Server",
            blurb: "STUN server to use for WebRTC (empty for none)",
            range: PropertyRange::Text(DEFAULT_STUN_SERVER),
        },
    );
    properties.push(
        PropertySpec {
            name: "is-live",
            nick: "Live Mode",
            blurb: "Whether to block Render without peers (default: false)",
            range: PropertyRange::Flag(false),
        },
    );
    properties
}

/// Who the element is.
#[derive(Debug, Clone, Copy)]
pub struct ElementMetadata {
    pub long_name: &'static str,
    pub classification: &'static str,
    pub description: &'static str,
    pub author: &'static str,
}

/// Says who the element is.
pub fn metadata() -> (metadata: ElementMetadata)
    ensures
        metadata == (ElementMetadata {
            long_name: "WebRTC Sink",
            classification: "Sink/Network",
            description: "Stream H264 video to web browsers using WebRTC",
            author: "Videology Inc <info@videology.com>",
        }),
{
    ElementMetadata {
        long_name: "WebRTC Sink",
        classification: "Sink/Network",
        description: "Stream H264 video to web browsers using WebRTC",
        author: "Videology Inc <info@videology.com>",
    }
}

/// Which way media flows through a pad.
#[derive(Debug, Clone, Copy, PartialEq, Eq, Structural)]
pub enum PadDirection {
    Source,
    Sink,
}

/// When a pad exists.
#[derive(Debug, Clone, Copy, PartialEq, Eq, Structural)]
pub enum PadPresence {
    Always,
    Sometimes,
    Request,
}

/// A pad of the element and the media it takes.
pub struct PadTemplate {
    pub name: &'static str,
    pub direction: PadDirection,
    pub presence: PadPresence,
    pub media_type: &'static str,
    /// The fields that the media must have, with their values.
    pub fields: Vec<(&'static str, &'static str)>,
}

/// Lists the element's pads: one sink pad for H.264 as a byte stream of whole
/// access units.
pub fn pad_templates() -> (templates: Vec<PadTemplate>)
    ensures
        templates.len() == 1,
        templates[0].name == "sink",
        templates[0].direction is Sink,
        templates[0].presence is Always,
        templates[0].media_type == "video/x-h264",
        templates[0].fields@ == seq![("stream-format", "byte-stream"), ("alignment", "au")],
{
    let mut fields: Vec<(&'static str, &'static str)> = Vec::new();
    fields.push(("stream-format", "byte-stream"));
    fields.push(("alignment", "au"));
    let mut templates: Vec<PadTemplate> = Vec::new();
    templates.push(
        PadTemplate {
            name: "sink",
            direction: PadDirection::Sink,
            presence: PadPresence::Always,
            media_type: "video/x-h264",
            fields,
        },
    );
    templates
}

/// The default that a property is listed with.
pub open spec fn listed_default(range: PropertyRange) -> PropertyValueView {
    match range {
        PropertyRange::UInt { default, .. } => PropertyValueView::UInt(default),
        PropertyRange::Text(default) => PropertyValueView::Text(Some(default@)),
        PropertyRange::Flag(default) => PropertyValueView::Flag(default),
    }
}

/// Whether a value lies in the range that a property is listed with.
pub open spec fn in_range(range: PropertyRange, value: PropertyValueView) -> bool {
    match (range, value) {
        (PropertyRange::UInt { minimum, maximum, .. }, PropertyValueView::UInt(n)) => minimum <= n
            <= maximum,
        (PropertyRange::Text(_), PropertyValueView::Text(text)) => text is Some,
        (PropertyRange::Flag(_), PropertyValueView::Flag(_)) => true,
        _ => false,
    }
}

/// Every listed property can be set and read, starts out at its listed
/// default, and keeps every value of its listed range unchanged.
pub proof fn law_listed_properties(i: int, settings: SettingsView, value: PropertyValueView)
    requires
        0 <= i < property_specs().len(),
        in_range(property_specs()[i].range, value),
    ensures
        ({
            let listed = property_specs()[i];
            &&& accepts(listed.name@, value)
            &&& property_of(default_settings(), listed.name@) == listed_default(listed.range)
            &&& property_of(with_property(settings, listed.name@, value), listed.name@) == value
        }),
{
    lemma_property_names();
}

/// Every property of the element is listed.
pub proof fn law_all_properties_are_listed(name: Seq<char>)
    requires
        kind_of_name(name) is Some,
    ensures
        exists|i: int| 0 <= i < property_specs().len() && (#[trigger] property_specs()[i]).name@ == name,
{
    assert(property_specs()[0].name@ == "port"@);
    assert(property_specs()[1].name@ == "stun-server"@);
    assert(property_specs()[2].name@ == "is-live"@);
}

/// What is listed as a property's default is what a new element has it at.
pub proof fn law_listed_defaults_are_the_defaults(
    listed: Vec<PropertySpec>,
    settings: Settings,
    i: int,
    value: PropertyValue,
)
    requires
        call_ensures(properties, (), listed),
        call_ensures(<Settings as Default>::default, (), settings),
        0 <= i < listed.len(),
        call_ensures(Settings::property, (&settings, listed[i].name), value),
    ensures
        match listed[i].range {
            PropertyRange::UInt { minimum, maximum, default } => value == PropertyValue::UInt(
                default,
            ) && minimum == 0 && maximum == 65535,
            PropertyRange::Text(default) => value matches PropertyValue::Text(Some(text)) && text@
                == default@,
            PropertyRange::Flag(default) => value == PropertyValue::Flag(default),
        },
{
    lemma_property_names();
    assert(value@ == property_of(settings@, listed[i].name@));
}

/// The properties are listed under their names, with what they are called and
/// what they are for.
pub proof fn law_properties_are_described(listed: Vec<PropertySpec>)
    requires
        call_ensures(properties, (), listed),
    ensures
        listed.len() == 3,
        listed[0].name == "port" && listed[1].name == "stun-server" && listed[2].name == "is-live",
        listed[0].nick == "HTTP Port" && listed[1].nick == "STUN Server" && listed[2].nick
            == "Live Mode",
        listed[0].blurb == "Port to use for the HTTP server (0 for auto)",
        listed[1].blurb == "STUN server to use for WebRTC (empty for none)",
        listed[2].blurb == "Whether to block Render without peers (default: false)",
{
}

} // verus!
