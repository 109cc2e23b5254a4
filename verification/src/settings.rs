//! The element's properties and the settings behind them.
use crate::media::RtcConfiguration;
use crate::media::stun_servers;
use crate::text::same_text;
use vstd::prelude::*;

verus! {

/// The port of the HTTP server if none is set.
pub const DEFAULT_PORT: u16 = 8091;

/// The STUN server if none is set.
pub const DEFAULT_STUN_SERVER: &'static str = "stun:stun.l.google.com:19302";

/// What the element's properties are set to.
#[derive(Debug)]
pub struct Settings {
    /// Port of the HTTP server; zero lets the system choose.
    pub port: u16,
    /// Address of the STUN server; empty for none.
    pub stun_server: String,
    /// Whether buffers wait while no peer is connected.
    pub is_live: bool,
}

/// The settings as plain values.
#[verifier::ext_equal]
pub struct SettingsView {
    pub port: u16,
    pub stun_server: Seq<char>,
    pub is_live: bool,
}

impl View for Settings {
    type V = SettingsView;

    open spec fn view(&self) -> SettingsView {
        SettingsView { port: self.port, stun_server: self.stun_server@, is_live: self.is_live }
    }
}

/// The settings of a new element.
pub open spec fn default_settings() -> SettingsView {
    SettingsView { port: 8091, stun_server: "stun:stun.l.google.com:19302"@, is_live: false }
}

impl Default for Settings {
    fn default() -> (settings: Self)
        ensures
            settings@ == default_settings(),
    {
        Settings { port: DEFAULT_PORT, stun_server: DEFAULT_STUN_SERVER.to_owned(), is_live: false }
    }
}

impl Clone for Settings {
    fn clone(&self) -> (settings: Self)
        ensures
            settings@ == self@,
    {
        Settings {
            port: self.port,
            stun_server: self.stun_server.clone(),
            is_live: self.is_live,
        }
    }
}

/// The type of a property's value.
#[derive(Debug, Clone, Copy, PartialEq, Eq, Structural)]
pub enum PropertyKind {
    UInt,
    Text,
    Flag,
}

/// A property's value.
#[derive(Debug)]
pub enum PropertyValue {
    UInt(u32),
    /// A text, or nothing where the caller resets it.
    Text(Option<String>),
    Flag(bool),
}

/// A property's value, with its text as a sequence of characters.
#[verifier::ext_equal]
pub enum PropertyValueView {
    UInt(u32),
    Text(Option<Seq<char>>),
    Flag(bool),
}

impl View for PropertyValue {
    type V = PropertyValueView;

    open spec fn view(&self) -> PropertyValueView {
        match self {
            PropertyValue::UInt(n) => PropertyValueView::UInt(*n),
            PropertyValue::Text(Some(text)) => PropertyValueView::Text(Some(text@)),
            PropertyValue::Text(None) => PropertyValueView::Text(None),
            PropertyValue::Flag(flag) => PropertyValueView::Flag(*flag),
        }
    }
}

/// The type of the property with the given name, if there is one.
pub open spec fn kind_of_name(name: Seq<char>) -> Option<PropertyKind> {
    if name == "port"@ {
        Some(PropertyKind::UInt)
    } else if name == "stun-server"@ {
        Some(PropertyKind::Text)
    } else if name == "is-live"@ {
        Some(PropertyKind::Flag)
    } else {
        None
    }
}

/// The type of a value.
pub open spec fn kind_of_value(value: PropertyValueView) -> PropertyKind {
    match value {
        PropertyValueView::UInt(_) => PropertyKind::UInt,
        PropertyValueView::Text(_) => PropertyKind::Text,
        PropertyValueView::Flag(_) => PropertyKind::Flag,
    }
}

/// Whether there is a property of this name that holds values of this type.
pub open spec fn accepts(name: Seq<char>, value: PropertyValueView) -> bool {
    kind_of_name(name) == Some(kind_of_value(value))
}

/// The settings after a property was set. A port keeps its low sixteen bits;
/// a STUN server that is reset goes back to its default.
pub open spec fn with_property(
    settings: SettingsView,
    name: Seq<char>,
    value: PropertyValueView,
) -> SettingsView {
    match (kind_of_name(name), value) {
        (Some(PropertyKind::UInt), PropertyValueView::UInt(n)) => SettingsView {
            port: (n % 0x1_0000) as u16,
            ..settings
        },
        (Some(PropertyKind::Text), PropertyValueView::Text(Some(text))) => SettingsView {
            stun_server: text,
            ..settings
        },
        (Some(PropertyKind::Text), PropertyValueView::Text(None)) => SettingsView {
            stun_server: default_settings().stun_server,
            ..settings
        },
        (Some(PropertyKind::Flag), PropertyValueView::Flag(flag)) => SettingsView {
            is_live: flag,
            ..settings
        },
        _ => settings,
    }
}

/// The value of a property.
pub open spec fn property_of(settings: SettingsView, name: Seq<char>) -> PropertyValueView {
    if name == "port"@ {
        PropertyValueView::UInt(settings.port as u32)
    } else if name == "stun-server"@ {
        PropertyValueView::Text(Some(settings.stun_server))
    } else {
        PropertyValueView::Flag(settings.is_live)
    }
}

/// The type of the property with the given name, if there is one.
pub fn property_kind(name: &str) -> (kind: Option<PropertyKind>)
    ensures
        kind == kind_of_name(name@),
{
    if same_text(name, "port") {
        Some(PropertyKind::UInt)
    } else if same_text(name, "stun-server") {
        Some(PropertyKind::Text)
    } else if same_text(name, "is-live") {
        Some(PropertyKind::Flag)
    } else {
        None
    }
}

impl Settings {
    /// Sets a property by its name.
    pub fn set_property(&mut self, name: &str, value: PropertyValue)
        requires
            accepts(name@, value@),
        ensures
            final(self)@ == with_property(old(self)@, name@, value@),
    {
        match value {
            PropertyValue::UInt(n) => {
                assert((n as u16) == (n % 0x1_0000) as u16) by (bit_vector);
                self.port = n as u16;
            },
            PropertyValue::Text(text) => {
                self.stun_server = match text {
                    Some(text) => text,
                    None => DEFAULT_STUN_SERVER.to_owned(),
                };
            },
            PropertyValue::Flag(flag) => {
                self.is_live = flag;
            },
        }
    }

    /// Reads a property by its name.
    pub fn property(&self, name: &str) -> (value: PropertyValue)
        requires
            kind_of_name(name@) is Some,
        ensures
            value@ == property_of(self@, name@),
    {
        if same_text(name, "port") {
            PropertyValue::UInt(self.port as u32)
        } else if same_text(name, "stun-server") {
            PropertyValue::Text(Some(self.stun_server.clone()))
        } else {
            PropertyValue::Flag(self.is_live)
        }
    }

    /// The peer connection configuration that the settings ask for.
    pub fn webrtc_configuration(&self) -> (config: RtcConfiguration)
        ensures
            config@ == stun_servers(self.stun_server@),
            self.stun_server@.len() == 0 <==> config.ice_servers.len() == 0,
            self.stun_server@.len() > 0 ==> config.ice_servers.len() == 1
                && config.ice_servers[0].urls.len() == 1 && config.ice_servers[0].urls[0]@
                == self.stun_server@,
    {
        RtcConfiguration::with_stun_server(self.stun_server.as_str())
    }
}

/// The names of the properties are three different ones.
pub(crate) proof fn lemma_property_names()
    ensures
        "port"@ != "stun-server"@,
        "port"@ != "is-live"@,
        "stun-server"@ != "is-live"@,
{
    reveal_strlit("port");
    reveal_strlit("stun-server");
    reveal_strlit("is-live");
    assert("port"@.len() == 4);
    assert("stun-server"@.len() == 11);
    assert("is-live"@.len() == 7);
}

/// A value as a property keeps it: a port keeps its low sixteen bits, and a
/// reset STUN server is the default one.
pub open spec fn kept(value: PropertyValueView) -> PropertyValueView {
    match value {
        PropertyValueView::UInt(n) => PropertyValueView::UInt((n % 0x1_0000) as u32),
        PropertyValueView::Text(None) => PropertyValueView::Text(
            Some(default_settings().stun_server),
        ),
        other => other,
    }
}

/// Reading a property gives back what it was set to.
pub proof fn law_property_reads_back(
    settings: SettingsView,
    name: Seq<char>,
    value: PropertyValueView,
)
    requires
        accepts(name, value),
    ensures
        property_of(with_property(settings, name, value), name) == kept(value),
{
    lemma_property_names();
}

/// Setting a property leaves the other properties as they were.
pub proof fn law_other_properties_stay(
    settings: SettingsView,
    name: Seq<char>,
    value: PropertyValueView,
    other: Seq<char>,
)
    requires
        accepts(name, value),
        kind_of_name(other) is Some,
        other != name,
    ensures
        property_of(with_property(settings, name, value), other) == property_of(settings, other),
{
    lemma_property_names();
}

/// Setting a property to what was read from it changes nothing.
pub proof fn law_property_writes_back(settings: SettingsView, name: Seq<char>)
    requires
        kind_of_name(name) is Some,
    ensures
        accepts(name, property_of(settings, name)),
        with_property(settings, name, property_of(settings, name)) == settings,
{
    lemma_property_names();
}

/// There are three properties, and a name is that of a property exactly if it
/// is one of theirs.
pub proof fn law_three_names_have_kinds(name: &str, kind: Option<PropertyKind>)
    requires
        call_ensures(property_kind, (name,), kind),
    ensures
        kind == Some(PropertyKind::UInt) <==> name@ == "port"@,
        kind == Some(PropertyKind::Text) <==> name@ == "stun-server"@,
        kind == Some(PropertyKind::Flag) <==> name@ == "is-live"@,
{
    lemma_property_names();
}

/// Every number can be set as the port, every text or none as the STUN server,
/// and either flag as the live mode.
pub proof fn law_every_value_of_its_kind_is_accepted(n: u32, text: Option<Seq<char>>, flag: bool)
    ensures
        accepts("port"@, PropertyValueView::UInt(n)),
        accepts("stun-server"@, PropertyValueView::Text(text)),
        accepts("is-live"@, PropertyValueView::Flag(flag)),
{
    lemma_property_names();
}

/// A port that fits is kept and read back as it was set, and one that does not
/// fit is kept up to a multiple of the number of ports. Nothing else changes.
pub proof fn law_a_set_port_is_kept(name: &str, n: u32, read: PropertyValue)
    requires
        name@ == "port"@,
    ensures
        forall|settings: &mut Settings|
            (#[trigger] call_ensures(
                Settings::set_property,
                (settings, name, PropertyValue::UInt(n)),
                (),
            )) && call_ensures(Settings::property, (&*final(settings), name), read) ==> {
                &&& read == PropertyValue::UInt((*final(settings)).port as u32)
                &&& n <= 65535 ==> (*final(settings)).port == n
                &&& (n - (*final(settings)).port) % 65536 == 0
                &&& (*final(settings)).stun_server@ == (*settings).stun_server@
                &&& (*final(settings)).is_live == (*settings).is_live
            },
{
    lemma_property_names();
}

/// A STUN server of any length is kept and read back as it was set, the empty
/// one too; only a reset gives the default. Nothing else changes.
pub proof fn law_a_set_stun_server_is_kept(name: &str, text: Option<String>, read: PropertyValue)
    requires
        name@ == "stun-server"@,
    ensures
        forall|settings: &mut Settings|
            (#[trigger] call_ensures(
                Settings::set_property,
                (settings, name, PropertyValue::Text(text)),
                (),
            )) && call_ensures(Settings::property, (&*final(settings), name), read) ==> {
                &&& (*final(settings)).stun_server@ == (match text {
                    Some(text) => text@,
                    None => "stun:stun.l.google.com:19302"@,
                })
                &&& read matches PropertyValue::Text(Some(kept)) && kept@
                    == (*final(settings)).stun_server@
                &&& (*final(settings)).port == (*settings).port
                &&& (*final(settings)).is_live == (*settings).is_live
            },
{
    lemma_property_names();
    assert(forall|settings: &mut Settings| #[trigger]
        call_ensures(Settings::property, (&*final(settings), name), read) ==> read@
            == PropertyValueView::Text(Some((*final(settings)).stun_server@)));
}

/// The live mode is kept and read back as it was set. Nothing else changes.
pub proof fn law_a_set_live_mode_is_kept(name: &str, flag: bool, read: PropertyValue)
    requires
        name@ == "is-live"@,
    ensures
        forall|settings: &mut Settings|
            (#[trigger] call_ensures(
                Settings::set_property,
                (settings, name, PropertyValue::Flag(flag)),
                (),
            )) && call_ensures(Settings::property, (&*final(settings), name), read) ==> {
                &&& (*final(settings)).is_live == flag
                &&& read == PropertyValue::Flag(flag)
                &&& (*final(settings)).port == (*settings).port
                &&& (*final(settings)).stun_server@ == (*settings).stun_server@
            },
{
    lemma_property_names();
}

/// A copy of the settings is the settings.
pub proof fn law_copied_settings_are_the_same(settings: &Settings, copy: Settings)
    requires
        call_ensures(<Settings as Clone>::clone, (settings,), copy),
    ensures
        copy.port == settings.port,
        copy.stun_server@ == settings.stun_server@,
        copy.is_live == settings.is_live,
{
}

/// The settings ask for the one server that they name, or for none if they
/// name none.
pub proof fn law_settings_ask_for_their_server(settings: &Settings, config: RtcConfiguration)
    requires
        call_ensures(Settings::webrtc_configuration, (settings,), config),
    ensures
        if settings.stun_server@.len() == 0 {
            config.ice_servers.len() == 0
        } else {
            &&& config.ice_servers.len() == 1
            &&& config.ice_servers[0].urls.len() == 1
            &&& config.ice_servers[0].urls[0]@ == settings.stun_server@
        },
{
}

} // verus!
