//! Events raised while traffic is analyzed, and the handlers they are
//! dispatched to.

use vstd::prelude::*;
use crate::error::HuginnError;
use crate::text::{dec_digits, hundredths_text, u64_to_string, hundredths_to_string};

verus! {

/// Events that can occur during traffic analysis.  Confidence values are in
/// hundredths; timestamps in milliseconds.
pub enum TrafficEvent {
    /// New traffic profile created
    ProfileCreated { ip: String, port: u16, timestamp: u64 },
    /// Traffic profile updated with new data
    ProfileUpdated { ip: String, port: u16, data_type: String, timestamp: u64 },
    /// TCP analysis completed
    TcpAnalyzed { ip: String, port: u16, os: String, quality: u32, timestamp: u64 },
    /// HTTP analysis completed
    HttpAnalyzed { ip: String, port: u16, browser: String, quality: u32, timestamp: u64 },
    /// TLS analysis completed
    TlsAnalyzed { ip: String, port: u16, ja4: String, timestamp: u64 },
    /// Analysis error occurred
    AnalysisError { ip: String, port: u16, error: String, timestamp: u64 },
}

impl TrafficEvent {
    /// The IP address the event speaks of.
    pub open spec fn spec_ip(self) -> Seq<char> {
        match self {
            TrafficEvent::ProfileCreated { ip, .. } => ip@,
            TrafficEvent::ProfileUpdated { ip, .. } => ip@,
            TrafficEvent::TcpAnalyzed { ip, .. } => ip@,
            TrafficEvent::HttpAnalyzed { ip, .. } => ip@,
            TrafficEvent::TlsAnalyzed { ip, .. } => ip@,
            TrafficEvent::AnalysisError { ip, .. } => ip@,
        }
    }

    /// The port the event speaks of.
    pub open spec fn spec_port(self) -> u16 {
        match self {
            TrafficEvent::ProfileCreated { port, .. } => port,
            TrafficEvent::ProfileUpdated { port, .. } => port,
            TrafficEvent::TcpAnalyzed { port, .. } => port,
            TrafficEvent::HttpAnalyzed { port, .. } => port,
            TrafficEvent::TlsAnalyzed { port, .. } => port,
            TrafficEvent::AnalysisError { port, .. } => port,
        }
    }

    /// The time the event speaks of.
    pub open spec fn spec_timestamp(self) -> u64 {
        match self {
            TrafficEvent::ProfileCreated { timestamp, .. } => timestamp,
            TrafficEvent::ProfileUpdated { timestamp, .. } => timestamp,
            TrafficEvent::TcpAnalyzed { timestamp, .. } => timestamp,
            TrafficEvent::HttpAnalyzed { timestamp, .. } => timestamp,
            TrafficEvent::TlsAnalyzed { timestamp, .. } => timestamp,
            TrafficEvent::AnalysisError { timestamp, .. } => timestamp,
        }
    }

    /// Get the IP address from any event.
    pub fn ip(&self) -> (r: &String)
        ensures
            r@ == self.spec_ip(),
    {
        match self {
            TrafficEvent::ProfileCreated { ip, .. } => ip,
            TrafficEvent::ProfileUpdated { ip, .. } => ip,
            TrafficEvent::TcpAnalyzed { ip, .. } => ip,
            TrafficEvent::HttpAnalyzed { ip, .. } => ip,
            TrafficEvent::TlsAnalyzed { ip, .. } => ip,
            TrafficEvent::AnalysisError { ip, .. } => ip,
        }
    }

    /// Get the port from any event.
    pub fn port(&self) -> (r: u16)
        ensures
            r == self.spec_port(),
    {
        match self {
            TrafficEvent::ProfileCreated { port, .. } => *port,
            TrafficEvent::ProfileUpdated { port, .. } => *port,
            TrafficEvent::TcpAnalyzed { port, .. } => *port,
            TrafficEvent::HttpAnalyzed { port, .. } => *port,
            TrafficEvent::TlsAnalyzed { port, .. } => *port,
            TrafficEvent::AnalysisError { port, .. } => *port,
        }
    }

    /// Get the timestamp from any event.
    pub fn timestamp(&self) -> (r: u64)
        ensures
            r == self.spec_timestamp(),
    {
        match self {
            TrafficEvent::ProfileCreated { timestamp, .. } => *timestamp,
            TrafficEvent::ProfileUpdated { timestamp, .. } => *timestamp,
            TrafficEvent::TcpAnalyzed { timestamp, .. } => *timestamp,
            TrafficEvent::HttpAnalyzed { timestamp, .. } => *timestamp,
            TrafficEvent::TlsAnalyzed { timestamp, .. } => *timestamp,
            TrafficEvent::AnalysisError { timestamp, .. } => *timestamp,
        }
    }
}

impl Clone for TrafficEvent {
    fn clone(&self) -> (r: Self)
        ensures
            r == *self,
    {
        match self {
            TrafficEvent::ProfileCreated { ip, port, timestamp } => TrafficEvent::ProfileCreated {
                ip: ip.clone(),
                port: *port,
                timestamp: *timestamp,
            },
            TrafficEvent::ProfileUpdated { ip, port, data_type, timestamp } => TrafficEvent::ProfileUpdated {
                ip: ip.clone(),
                port: *port,
                data_type: data_type.clone(),
                timestamp: *timestamp,
            },
            TrafficEvent::TcpAnalyzed { ip, port, os, quality, timestamp } => TrafficEvent::TcpAnalyzed {
                ip: ip.clone(),
                port: *port,
                os: os.clone(),
                quality: *quality,
                timestamp: *timestamp,
            },
            TrafficEvent::HttpAnalyzed { ip, port, browser, quality, timestamp } => TrafficEvent::HttpAnalyzed {
                ip: ip.clone(),
                port: *port,
                browser: browser.clone(),
                quality: *quality,
                timestamp: *timestamp,
            },
            TrafficEvent::TlsAnalyzed { ip, port, ja4, timestamp } => TrafficEvent::TlsAnalyzed {
                ip: ip.clone(),
                port: *port,
                ja4: ja4.clone(),
                timestamp: *timestamp,
            },
            TrafficEvent::AnalysisError { ip, port, error, timestamp } => TrafficEvent::AnalysisError {
                ip: ip.clone(),
                port: *port,
                error: error.clone(),
                timestamp: *timestamp,
            },
        }
    }
}

/// The log line `format_event` renders for an event.
pub open spec fn event_text(e: TrafficEvent) -> Seq<char> {
    match e {
        TrafficEvent::ProfileCreated { ip, port, .. } => "New profile created for "@ + ip@ + ":"@ + dec_digits(
            port as nat,
        ),
        TrafficEvent::ProfileUpdated { ip, port, data_type, .. } => "Profile updated for "@ + ip@ + ":"@
            + dec_digits(port as nat) + " with "@ + data_type@ + " data"@,
        TrafficEvent::TcpAnalyzed { ip, port, os, quality, .. } => "TCP analysis for "@ + ip@ + ":"@ + dec_digits(
            port as nat,
        ) + " - OS: "@ + os@ + " (quality: "@ + hundredths_text(quality as nat) + ")"@,
        TrafficEvent::HttpAnalyzed { ip, port, browser, quality, .. } => "HTTP analysis for "@ + ip@ + ":"@
            + dec_digits(port as nat) + " - Browser: "@ + browser@ + " (quality: "@ + hundredths_text(
            quality as nat,
        ) + ")"@,
        TrafficEvent::TlsAnalyzed { ip, port, ja4, .. } => "TLS analysis for "@ + ip@ + ":"@ + dec_digits(
            port as nat,
        ) + " - JA4: "@ + ja4@,
        TrafficEvent::AnalysisError { ip, port, error, .. } => "Analysis error for "@ + ip@ + ":"@ + dec_digits(
            port as nat,
        ) + " - "@ + error@,
    }
}

/// Render the log line for an event.  Where the line goes is the embedding
/// application's choice; this library only builds it.
pub fn format_event(e: &TrafficEvent) -> (r: String)
    ensures
        r@ == event_text(*e),
{
    match e {
        TrafficEvent::ProfileCreated { ip, port, .. } => {
            let mut s = "New profile created for ".to_owned();
            s.append(ip.as_str());
            s.append(":");
            let p = u64_to_string(*port as u64);
            s.append(p.as_str());
            proof {
                assert(s@ =~= event_text(*e));
            }
            s
        },
        TrafficEvent::ProfileUpdated { ip, port, data_type, .. } => {
            let mut s = "Profile updated for ".to_owned();
            s.append(ip.as_str());
            s.append(":");
            let p = u64_to_string(*port as u64);
            s.append(p.as_str());
            s.append(" with ");
            s.append(data_type.as_str());
            s.append(" data");
            proof {
                assert(s@ =~= event_text(*e));
            }
            s
        },
        TrafficEvent::TcpAnalyzed { ip, port, os, quality, .. } => {
            let mut s = "TCP analysis for ".to_owned();
            s.append(ip.as_str());
            s.append(":");
            let p = u64_to_string(*port as u64);
            s.append(p.as_str());
            s.append(" - OS: ");
            s.append(os.as_str());
            s.append(" (quality: ");
            let q = hundredths_to_string(*quality);
            s.append(q.as_str());
            s.append(")");
            proof {
                assert(s@ =~= event_text(*e));
            }
            s
        },
        TrafficEvent::HttpAnalyzed { ip, port, browser, quality, .. } => {
            let mut s = "HTTP analysis for ".to_owned();
            s.append(ip.as_str());
            s.append(":");
            let p = u64_to_string(*port as u64);
            s.append(p.as_str());
            s.append(" - Browser: ");
            s.append(browser.as_str());
            s.append(" (quality: ");
            let q = hundredths_to_string(*quality);
            s.append(q.as_str());
            s.append(")");
            proof {
                assert(s@ =~= event_text(*e));
            }
            s
        },
        TrafficEvent::TlsAnalyzed { ip, port, ja4, .. } => {
            let mut s = "TLS analysis for ".to_owned();
            s.append(ip.as_str());
            s.append(":");
            let p = u64_to_string(*port as u64);
            s.append(p.as_str());
            s.append(" - JA4: ");
            s.append(ja4.as_str());
            proof {
                assert(s@ =~= event_text(*e));
            }
            s
        },
        TrafficEvent::AnalysisError { ip, port, error, .. } => {
            let mut s = "Analysis error for ".to_owned();
            s.append(ip.as_str());
            s.append(":");
            let p = u64_to_string(*port as u64);
            s.append(p.as_str());
            s.append(" - ");
            s.append(error.as_str());
            proof {
                assert(s@ =~= event_text(*e));
            }
            s
        },
    }
}

/// Trait for handling traffic events.  The library states nothing of what an
/// implementation does; implementations belong to the embedding application.
pub trait EventHandler: Send + Sync {
    /// Handle a traffic event.
    fn handle_event(&self, event: TrafficEvent) -> Result<(), HuginnError>;
}

/// Event handler that renders each event as its log line.  The rendered line
/// is built by [`format_event`]; where it goes is up to the embedding
/// application, which can wrap this handler or replace it.
pub struct LoggingEventHandler;

impl EventHandler for LoggingEventHandler {
    fn handle_event(&self, event: TrafficEvent) -> Result<(), HuginnError> {
        let _line = format_event(&event);
        Ok(())
    }
}

/// Event dispatcher that fans each event out to any number of handlers.
pub struct EventDispatcher {
    handlers: Vec<Box<dyn EventHandler>>,
}

impl EventDispatcher {
    /// Create a new event dispatcher with no handlers.
    pub fn new() -> Self {
        EventDispatcher { handlers: Vec::new() }
    }

    /// Add an event handler.
    pub fn add_handler<H: EventHandler + 'static>(&mut self, handler: H) {
        let b: Box<dyn EventHandler> = Box::new(handler);
        self.handlers.push(b);
    }

    /// Dispatch an event to all handlers; a handler's error does not stop
    /// the others.
    pub fn dispatch(&self, event: &TrafficEvent) {
        let mut i: usize = 0;
        while i < self.handlers.len()
            decreases self.handlers@.len() - i,
        {
            let _ = self.handlers[i].handle_event(event.clone());
            i += 1;
        }
    }
}

impl Default for EventDispatcher {
    fn default() -> Self {
        EventDispatcher::new()
    }
}

} // verus!
