//! The broker's address, and what is logged of the broker's events.
use vstd::prelude::*;

verus! {

/// What the broker's client tells.
#[derive(Clone, Copy, Debug, PartialEq, Eq, Structural)]
pub enum MqttEvent {
    /// A message of ours was taken.
    Published,
    Disconnected,
    Connected,
    /// Anything else.
    Other,
}

/// What a log says of an event, and whether the event's own text follows.
#[derive(Clone, Copy, Debug)]
pub struct EventLine {
    pub text: &'static str,
    pub with_details: bool,
}

/// The address of the broker.
pub fn mqtt_url(protocol: &str, server: &str, port: &str) -> (r: String)
    ensures
        r@ == protocol@ + "://"@ + server@ + ":"@ + port@,
{
    let mut url = String::new();
    url.append(protocol);
    url.append("://");
    url.append(server);
    url.append(":");
    url.append(port);
    assert(url@ =~= protocol@ + "://"@ + server@ + ":"@ + port@);
    url
}

/// What to log of an event of the broker's client; that is all that is done about it.
pub fn mqtt_event_line(event: MqttEvent) -> (r: EventLine)
    ensures
        match event {
            MqttEvent::Published => r.text@ == "Received mqtt publish event: "@ && r.with_details,
            MqttEvent::Disconnected => r.text@ == "Received mqtt disconnected event"@
                && !r.with_details,
            MqttEvent::Connected => r.text@ == "Received mqtt connected event "@ && r.with_details,
            MqttEvent::Other => r.text@ == "Received mqtt event: "@ && r.with_details,
        },
{
    match event {
        MqttEvent::Published => EventLine {
            text: "Received mqtt publish event: ",
            with_details: true,
        },
        MqttEvent::Disconnected => EventLine {
            text: "Received mqtt disconnected event",
            with_details: false,
        },
        MqttEvent::Connected => EventLine {
            text: "Received mqtt connected event ",
            with_details: true,
        },
        MqttEvent::Other => EventLine { text: "Received mqtt event: ", with_details: true },
    }
}

/// The broker's address is its three parts as they are, in their order, with a colon and two
/// slashes behind the first and a colon behind the second.
pub proof fn law_url_is_made_of_its_parts(protocol: &str, server: &str, port: &str, r: String)
    requires
        call_ensures(mqtt_url, (protocol, server, port), r),
    ensures
        r@.len() == protocol@.len() + server@.len() + port@.len() + 4,
        r@ == protocol@ + seq![':', '/', '/'] + server@ + seq![':'] + port@,
{
    reveal_strlit("://");
    reveal_strlit(":");
    assert("://"@ =~= seq![':', '/', '/']);
    assert(":"@ =~= seq![':']);
}

/// What is logged of each event, and that only the end of the connection has nothing more to
/// tell.
pub proof fn law_line_of_each_event(event: MqttEvent, r: EventLine)
    requires
        call_ensures(mqtt_event_line, (event,), r),
    ensures
        r.with_details <==> !(event is Disconnected),
        event is Published ==> r.text@ == "Received mqtt publish event: "@,
        event is Disconnected ==> r.text@ == "Received mqtt disconnected event"@,
        event is Connected ==> r.text@ == "Received mqtt connected event "@,
        event is Other ==> r.text@ == "Received mqtt event: "@,
{
}

} // verus!
