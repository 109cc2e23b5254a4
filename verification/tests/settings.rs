use gstwebsink::description::{metadata, pad_templates, properties};
use gstwebsink::description::{PadDirection, PadPresence, PropertyRange};
use gstwebsink::element::WebSink;
use gstwebsink::media::RtcConfiguration;
use gstwebsink::settings::{property_kind, PropertyKind, PropertyValue, Settings};

fn uint(value: PropertyValue) -> u32 {
    match value {
        PropertyValue::UInt(n) => n,
        other => panic!("not a number: {:?}", other),
    }
}

fn text(value: PropertyValue) -> String {
    match value {
        PropertyValue::Text(Some(text)) => text,
        other => panic!("not a text: {:?}", other),
    }
}

fn flag(value: PropertyValue) -> bool {
    match value {
        PropertyValue::Flag(flag) => flag,
        other => panic!("not a flag: {:?}", other),
    }
}

#[test]
fn default_settings_are_those_of_the_listed_properties() {
    let settings = Settings::default();
    assert_eq!(settings.port, 8091);
    assert_eq!(settings.stun_server, "stun:stun.l.google.com:19302");
    assert!(!settings.is_live);
    for property in properties() {
        let value = settings.property(property.name);
        match property.range {
            PropertyRange::UInt { minimum, maximum, default } => {
                assert_eq!((minimum, maximum), (0, 65535));
                assert_eq!(uint(value), default);
            }
            PropertyRange::Text(default) => assert_eq!(text(value), default),
            PropertyRange::Flag(default) => assert_eq!(flag(value), default),
        }
    }
}

#[test]
fn properties_are_listed_in_order() {
    let listed = properties();
    let names: Vec<&str> = listed.iter().map(|property| property.name).collect();
    assert_eq!(names, vec!["port", "stun-server", "is-live"]);
    assert_eq!(listed[0].nick, "HTTP Port");
    assert_eq!(listed[1].blurb, "STUN server to use for WebRTC (empty for none)");
    assert_eq!(listed[2].blurb, "Whether to block Render without peers (default: false)");
}

#[test]
fn property_names_have_kinds() {
    assert_eq!(property_kind("port"), Some(PropertyKind::UInt));
    assert_eq!(property_kind("stun-server"), Some(PropertyKind::Text));
    assert_eq!(property_kind("is-live"), Some(PropertyKind::Flag));
    assert_eq!(property_kind("is_live"), None);
    assert_eq!(property_kind(""), None);
}

#[test]
fn properties_read_back() {
    let mut sink = WebSink::default();
    sink.set_property("port", PropertyValue::UInt(9000));
    sink.set_property("stun-server", PropertyValue::Text(Some("stun:example".to_string())));
    sink.set_property("is-live", PropertyValue::Flag(true));
    assert_eq!(uint(sink.property("port")), 9000);
    assert_eq!(text(sink.property("stun-server")), "stun:example");
    assert!(flag(sink.property("is-live")));
}

#[test]
fn ports_keep_their_low_bits() {
    let mut settings = Settings::default();
    settings.set_property("port", PropertyValue::UInt(65535));
    assert_eq!(settings.port, 65535);
    settings.set_property("port", PropertyValue::UInt(70000));
    assert_eq!(settings.port, 4464);
    settings.set_property("port", PropertyValue::UInt(65536));
    assert_eq!(settings.port, 0);
}

#[test]
fn a_reset_stun_server_is_the_default_one() {
    let mut settings = Settings::default();
    settings.set_property("stun-server", PropertyValue::Text(Some(String::new())));
    assert_eq!(settings.stun_server, "");
    settings.set_property("stun-server", PropertyValue::Text(None));
    assert_eq!(settings.stun_server, "stun:stun.l.google.com:19302");
}

#[test]
fn setting_one_property_leaves_the_others() {
    let mut settings = Settings::default();
    settings.set_property("is-live", PropertyValue::Flag(true));
    assert_eq!(settings.port, 8091);
    assert_eq!(settings.stun_server, "stun:stun.l.google.com:19302");
    let copy = settings.clone();
    assert!(copy.is_live);
    assert_eq!(copy.port, 8091);
}

#[test]
fn writing_back_what_was_read_changes_nothing() {
    let mut settings = Settings::default();
    settings.port = 4000;
    settings.stun_server = "stun:other".to_string();
    for name in ["port", "stun-server", "is-live"] {
        let value = settings.property(name);
        settings.set_property(name, value);
    }
    assert_eq!(settings.port, 4000);
    assert_eq!(settings.stun_server, "stun:other");
    assert!(!settings.is_live);
}

#[test]
fn a_stun_server_becomes_the_only_ice_server() {
    let config = Settings::default().webrtc_configuration();
    assert_eq!(config.ice_servers.len(), 1);
    assert_eq!(config.ice_servers[0].urls, vec!["stun:stun.l.google.com:19302"]);
    let copy = config.clone();
    assert_eq!(copy.ice_servers.len(), 1);
    assert_eq!(copy.ice_servers[0].urls, config.ice_servers[0].urls);
}

#[test]
fn an_empty_stun_server_stands_for_none() {
    assert!(RtcConfiguration::with_stun_server("").ice_servers.is_empty());
}

#[test]
fn the_element_describes_itself() {
    let metadata = metadata();
    assert_eq!(metadata.long_name, "WebRTC Sink");
    assert_eq!(metadata.classification, "Sink/Network");
    assert_eq!(metadata.description, "Stream H264 video to web browsers using WebRTC");
    assert_eq!(metadata.author, "Videology Inc <info@videology.com>");
    let pads = pad_templates();
    assert_eq!(pads.len(), 1);
    assert_eq!(pads[0].name, "sink");
    assert_eq!(pads[0].direction, PadDirection::Sink);
    assert_eq!(pads[0].presence, PadPresence::Always);
    assert_eq!(pads[0].media_type, "video/x-h264");
    assert_eq!(pads[0].fields, vec![("stream-format", "byte-stream"), ("alignment", "au")]);
}
