//! The processing graph of a session: how it is described to the media engine, and the check
//! that every element the session relies on is there once the engine has built it.

use vstd::prelude::*;
use crate::error::{checked_view, SessionError, SessionErrorView};
use crate::text::{append_decimal, decimal_text};

verus! {

/// Where a session sends to and listens on.
#[derive(Debug, PartialEq, Eq)]
pub struct SessionConfig {
    /// Host that receives the stream.
    pub remote_host: String,
    /// Port of the receiver for RTP data.
    pub client_rtp_port: u16,
    /// Port of the receiver for RTCP sender reports.
    pub client_rtcp_port: u16,
    /// Local port on which RTCP receiver reports arrive.
    pub server_rtcp_port: u16,
}

/// The content of a [`SessionConfig`].
pub struct SessionConfigView {
    pub remote_host: Seq<char>,
    pub client_rtp_port: u16,
    pub client_rtcp_port: u16,
    pub server_rtcp_port: u16,
}

impl View for SessionConfig {
    type V = SessionConfigView;

    open spec fn view(&self) -> SessionConfigView {
        SessionConfigView {
            remote_host: self.remote_host@,
            client_rtp_port: self.client_rtp_port,
            client_rtcp_port: self.client_rtcp_port,
            server_rtcp_port: self.server_rtcp_port,
        }
    }
}

/// The elements of the graph that the session reaches by name.
#[derive(Clone, Copy, Debug, PartialEq, Eq, Structural)]
pub enum ElementName {
    /// The ingestion point into which raw frames are pushed.
    Source,
    /// The sink that sends RTP data.
    RtpSink,
    /// The sink that sends RTCP sender reports.
    RtcpSink,
    /// The source that receives RTCP receiver reports.
    RtcpSource,
}

/// What an element of the graph is able to do.
#[derive(Clone, Copy, Debug, PartialEq, Eq, Structural)]
pub enum ElementKind {
    /// Takes buffers from the application.
    AppSource,
    /// Sends datagrams.
    UdpSink,
    /// Receives datagrams.
    UdpSource,
    /// Anything else.
    Other,
}

impl ElementName {
    /// The name under which the graph description declares this element.
    pub open spec fn label_text(self) -> Seq<char> {
        match self {
            ElementName::Source => "src"@,
            ElementName::RtpSink => "rtpudpsink"@,
            ElementName::RtcpSink => "rtcpudpsink"@,
            ElementName::RtcpSource => "rtcpudpsrc"@,
        }
    }

    /// The kind of element that must stand behind this name.
    pub open spec fn expected_kind(self) -> ElementKind {
        match self {
            ElementName::Source => ElementKind::AppSource,
            ElementName::RtpSink => ElementKind::UdpSink,
            ElementName::RtcpSink => ElementKind::UdpSink,
            ElementName::RtcpSource => ElementKind::UdpSource,
        }
    }

    /// The place of this name in the order in which the names are checked.
    pub open spec fn rank(self) -> nat {
        match self {
            ElementName::Source => 0,
            ElementName::RtpSink => 1,
            ElementName::RtcpSink => 2,
            ElementName::RtcpSource => 3,
        }
    }

    /// Returns the name under which the graph description declares this element.
    pub fn label(&self) -> (name: &'static str)
        ensures
            name@ == self.label_text(),
    {
        match self {
            ElementName::Source => "src",
            ElementName::RtpSink => "rtpudpsink",
            ElementName::RtcpSink => "rtcpudpsink",
            ElementName::RtcpSource => "rtcpudpsrc",
        }
    }

    /// Returns the kind of element that must stand behind this name.
    pub fn required_kind(&self) -> (kind: ElementKind)
        ensures
            kind == self.expected_kind(),
    {
        match self {
            ElementName::Source => ElementKind::AppSource,
            ElementName::RtpSink => ElementKind::UdpSink,
            ElementName::RtcpSink => ElementKind::UdpSink,
            ElementName::RtcpSource => ElementKind::UdpSource,
        }
    }
}

impl ElementKind {
    /// The kind of element that the engine's factory named `factory` makes.
    pub open spec fn of_factory_text(factory: Seq<char>) -> ElementKind {
        if factory == "appsrc"@ {
            ElementKind::AppSource
        } else if factory == "udpsink"@ {
            ElementKind::UdpSink
        } else if factory == "udpsrc"@ {
            ElementKind::UdpSource
        } else {
            ElementKind::Other
        }
    }

    /// Returns the kind of element that the engine's factory named `factory` makes.
    pub fn of_factory(factory: &str) -> (kind: ElementKind)
        ensures
            kind == ElementKind::of_factory_text(factory@),
    {
        let name = factory.to_owned();
        if name == "appsrc".to_owned() {
            ElementKind::AppSource
        } else if name == "udpsink".to_owned() {
            ElementKind::UdpSink
        } else if name == "udpsrc".to_owned() {
            ElementKind::UdpSource
        } else {
            ElementKind::Other
        }
    }
}

/// The text that describes the graph of a session to the media engine: an RTP session manager
/// fed by the ingestion point through conversion, encoding and packetizing; its RTP output sent
/// to the receiver's RTP port; its RTCP output sent to the receiver's RTCP port without waiting
/// on the clock or on completion; and RTCP from the local port fed back into it.
pub open spec fn description_text(config: SessionConfigView) -> Seq<char> {
    "rtpbin name=rtpman autoremove=true\n               appsrc name="@
        + ElementName::Source.label_text()
        + " ! videoconvert ! x264enc ! rtph264pay ! rtpman.send_rtp_sink_0\n               rtpman.send_rtp_src_0 ! udpsink name="@
        + ElementName::RtpSink.label_text() + " host="@ + config.remote_host + " port="@
        + decimal_text(config.client_rtp_port as nat)
        + "\n               rtpman.send_rtcp_src_0 ! udpsink name="@
        + ElementName::RtcpSink.label_text() + " host="@ + config.remote_host + " port="@
        + decimal_text(config.client_rtcp_port as nat)
        + " sync=false async=false\n               udpsrc name="@
        + ElementName::RtcpSource.label_text() + " port="@ + decimal_text(
        config.server_rtcp_port as nat,
    ) + " ! rtpman.recv_rtcp_sink_0"@
}

/// Writes the description of the graph for `config`.
pub fn pipeline_description(config: &SessionConfig) -> (description: String)
    ensures
        description@ == description_text(config@),
{
    let mut text = String::from_str(
        "rtpbin name=rtpman autoremove=true\n               appsrc name=",
    );
    text.append(ElementName::Source.label());
    text.append(
        " ! videoconvert ! x264enc ! rtph264pay ! rtpman.send_rtp_sink_0\n               rtpman.send_rtp_src_0 ! udpsink name=",
    );
    text.append(ElementName::RtpSink.label());
    text.append(" host=");
    text.append(config.remote_host.as_str());
    text.append(" port=");
    append_decimal(&mut text, config.client_rtp_port);
    text.append("\n               rtpman.send_rtcp_src_0 ! udpsink name=");
    text.append(ElementName::RtcpSink.label());
    text.append(" host=");
    text.append(config.remote_host.as_str());
    text.append(" port=");
    append_decimal(&mut text, config.client_rtcp_port);
    text.append(" sync=false async=false\n               udpsrc name=");
    text.append(ElementName::RtcpSource.label());
    text.append(" port=");
    append_decimal(&mut text, config.server_rtcp_port);
    text.append(" ! rtpman.recv_rtcp_sink_0");
    text
}

/// What each name of the graph resolved to once the engine had built it: the kind of the
/// element found under the name, or nothing where no element bears it.
#[derive(Clone, Copy, Debug, PartialEq, Eq, Structural)]
pub struct ResolvedGraph {
    pub source: Option<ElementKind>,
    pub rtp_sink: Option<ElementKind>,
    pub rtcp_sink: Option<ElementKind>,
    pub rtcp_source: Option<ElementKind>,
}

impl ResolvedGraph {
    /// What `name` resolved to.
    pub open spec fn kind_of(self, name: ElementName) -> Option<ElementKind> {
        match name {
            ElementName::Source => self.source,
            ElementName::RtpSink => self.rtp_sink,
            ElementName::RtcpSink => self.rtcp_sink,
            ElementName::RtcpSource => self.rtcp_source,
        }
    }

    /// `name` resolved to an element of the kind that the session needs there.
    pub open spec fn resolves(self, name: ElementName) -> bool {
        self.kind_of(name) == Some(name.expected_kind())
    }

    /// Every name resolved to an element of the right kind.
    pub open spec fn complete(self) -> bool {
        forall|name: ElementName| self.resolves(name)
    }

    /// `name` did not resolve to an element of the right kind, while every name that comes
    /// before it in checking order did.
    pub open spec fn unresolved_first(self, name: ElementName) -> bool {
        &&& !self.resolves(name)
        &&& forall|earlier: ElementName| earlier.rank() < name.rank() ==> self.resolves(earlier)
    }

    /// The first name, in checking order, that did not resolve to an element of the right
    /// kind, or nothing where all did.
    pub open spec fn first_missing(self) -> Option<ElementName> {
        if !self.resolves(ElementName::Source) {
            Some(ElementName::Source)
        } else if !self.resolves(ElementName::RtpSink) {
            Some(ElementName::RtpSink)
        } else if !self.resolves(ElementName::RtcpSink) {
            Some(ElementName::RtcpSink)
        } else if !self.resolves(ElementName::RtcpSource) {
            Some(ElementName::RtcpSource)
        } else {
            None
        }
    }

    /// What the check of this graph comes to: nothing to object to, or the first missing
    /// element by its name.
    pub open spec fn verdict(self) -> Result<(), SessionErrorView> {
        match self.first_missing() {
            None => Ok(()),
            Some(name) => Err(SessionErrorView::MissingElement(name.label_text())),
        }
    }

    /// Returns what `name` resolved to.
    pub fn lookup(&self, name: ElementName) -> (kind: Option<ElementKind>)
        ensures
            kind == self.kind_of(name),
    {
        match name {
            ElementName::Source => self.source,
            ElementName::RtpSink => self.rtp_sink,
            ElementName::RtcpSink => self.rtcp_sink,
            ElementName::RtcpSource => self.rtcp_source,
        }
    }

    /// Tells whether `name` resolved to an element of the kind that the session needs there.
    pub fn has(&self, name: ElementName) -> (found: bool)
        ensures
            found == self.resolves(name),
    {
        match self.lookup(name) {
            Some(kind) => kind == name.required_kind(),
            None => false,
        }
    }
}

/// Checks that every name of the graph resolved to an element of the right kind, and reports
/// the first one that did not.
pub fn validate_elements(graph: &ResolvedGraph) -> (checked: Result<(), SessionError>)
    ensures
        checked_view(checked) == graph.verdict(),
{
    let names = [
        ElementName::Source,
        ElementName::RtpSink,
        ElementName::RtcpSink,
        ElementName::RtcpSource,
    ];
    let mut position: usize = 0;
    while position < 4
        invariant
            position <= 4,
            names@ == seq![
                ElementName::Source,
                ElementName::RtpSink,
                ElementName::RtcpSink,
                ElementName::RtcpSource,
            ],
            forall|earlier: ElementName| earlier.rank() < position ==> graph.resolves(earlier),
        decreases 4 - position,
    {
        let name = names[position];
        if !graph.has(name) {
            proof {
                lemma_first_missing(*graph, name);
            }
            return Err(SessionError::MissingElement(name.label().to_owned()));
        }
        position += 1;
    }
    proof {
        lemma_complete(*graph);
    }
    Ok(())
}

/// A graph has no missing element exactly when every name resolved.
pub proof fn lemma_complete(graph: ResolvedGraph)
    ensures
        graph.first_missing() is None <==> graph.complete(),
        graph.verdict() is Ok <==> graph.complete(),
{
    if graph.first_missing() is None {
        assert forall|name: ElementName| graph.resolves(name) by {
            match name {
                ElementName::Source => {},
                ElementName::RtpSink => {},
                ElementName::RtcpSink => {},
                ElementName::RtcpSource => {},
            }
        }
    }
}

/// The missing element that is reported is the one that did not resolve while every name
/// checked before it did.
pub proof fn lemma_first_missing(graph: ResolvedGraph, name: ElementName)
    ensures
        graph.first_missing() == Some(name) <==> graph.unresolved_first(name),
{
    if graph.first_missing() == Some(name) {
        assert forall|earlier: ElementName| earlier.rank() < name.rank() implies graph.resolves(
            earlier,
        ) by {
            match earlier {
                ElementName::Source => {},
                ElementName::RtpSink => {},
                ElementName::RtcpSink => {},
                ElementName::RtcpSource => {},
            }
        }
    }
}

} // verus!
