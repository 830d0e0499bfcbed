use cider_rpc::airplay::AirPlayError;
use cider_rpc::discord::client_id_for;
use cider_rpc::discord::DiscordError;
use cider_rpc::discord::RPCButton;
use cider_rpc::plugin::Plugin;

#[test]
fn airplay_error_message_carries_the_reason() {
    let e = AirPlayError::Init("no sidecar".to_string());
    assert_eq!(e.message(), "Initialisation Error: no sidecar");
}

#[test]
fn discord_error_messages_follow_their_formats() {
    assert_eq!(
        DiscordError::Init("socket gone".to_string()).message(),
        "Initialisation Error: socket gone"
    );
    assert_eq!(DiscordError::NoClient.message(), "No Client");
    assert_eq!(
        DiscordError::Status("bad payload".to_string()).message(),
        "Failed to Update Status: bad payload"
    );
}

#[test]
fn client_ids_map_to_their_presence_identities() {
    assert_eq!(client_id_for("Cider-2"), "1020414178047041627");
    assert_eq!(client_id_for("AppleMusic"), "886578863147192350");
    assert_eq!(client_id_for("anything else"), "911790844204437504");
    assert_eq!(client_id_for(""), "911790844204437504");
}

#[test]
fn rpc_buttons_carry_label_and_url() {
    let b = RPCButton { label: "Listen".to_string(), url: "https://example.invalid".to_string() };
    assert_eq!(b.label, "Listen");
    assert_eq!(b.url, "https://example.invalid");
}

#[test]
fn plugins_are_plain_markers() {
    let _p = Plugin {};
}
