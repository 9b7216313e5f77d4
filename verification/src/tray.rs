//! The menu bar tray's text: tooltip, connect item and session statistics.

use vstd::prelude::*;
use vstd::string::*;
use crate::text::{decimal, decimal_string};

verus! {

/// State pushed by the UI to the tray.
pub struct TrayStatePayload {
    pub connected: bool,
    pub connecting: bool,
    pub server: String,
    pub session_time: Option<String>,
    pub download_pkts: Option<u64>,
    pub upload_pkts: Option<u64>,
}

/// The texts and enabled state the tray shows for a payload.
pub struct TrayView {
    /// Tooltip of the tray icon.
    pub tooltip: String,
    /// Label of the connect / disconnect item.
    pub connect_label: String,
    /// Whether the connect / disconnect item is enabled.
    pub connect_enabled: bool,
    /// The session time item.
    pub stats_time: String,
    /// The packet counter item.
    pub stats_pkts: String,
}

/// The session time shown: the payload's, or `00:00:00`.
pub open spec fn shown_time(p: TrayStatePayload) -> Seq<char> {
    match p.session_time {
        Some(t) => t@,
        None => "00:00:00"@,
    }
}

/// A counter shown: the payload's, or 0.
pub open spec fn shown_count(c: Option<u64>) -> nat {
    match c {
        Some(n) => n as nat,
        None => 0,
    }
}

/// The tooltip for a payload.
pub open spec fn tooltip_text(p: TrayStatePayload) -> Seq<char> {
    if p.connected {
        "Connected to "@ + p.server@ + " | "@ + shown_time(p) + " | \u{2193}"@
            + decimal(shown_count(p.download_pkts)) + " \u{2191}"@ + decimal(shown_count(p.upload_pkts))
    } else if p.connecting {
        "Connecting to "@ + p.server@ + "..."@
    } else {
        "Disconnected"@
    }
}

/// The connect item's label for a payload.
pub open spec fn connect_label_text(p: TrayStatePayload) -> Seq<char> {
    if p.connected {
        "Disconnect from "@ + p.server@
    } else if p.connecting {
        "Connecting\u{2026}"@
    } else {
        "Connect "@ + p.server@
    }
}

/// The packet counter item's text.
pub open spec fn pkts_text(down: nat, up: nat) -> Seq<char> {
    " \u{2193} "@ + decimal(down) + " pkts  \u{2191} "@ + decimal(up) + " pkts"@
}

impl TrayStatePayload {
    /// The payload of a tray update from the UI: an empty session time
    /// means none.
    pub fn from_update(
        connected: bool,
        connecting: bool,
        server: String,
        session_time: String,
        download_pkts: u64,
        upload_pkts: u64,
    ) -> (p: Self)
        ensures
            p.connected == connected,
            p.connecting == connecting,
            p.server@ == server@,
            p.session_time matches Some(t) ==> t@ == session_time@ && session_time@.len() > 0,
            p.session_time is None <==> session_time@.len() == 0,
            p.download_pkts == Some(download_pkts),
            p.upload_pkts == Some(upload_pkts),
    {
        let time = if session_time.as_str().unicode_len() == 0 { None } else { Some(session_time) };
        TrayStatePayload {
            connected,
            connecting,
            server,
            session_time: time,
            download_pkts: Some(download_pkts),
            upload_pkts: Some(upload_pkts),
        }
    }

    fn time_text(&self) -> (t: String)
        ensures
            t@ == shown_time(*self),
    {
        match &self.session_time {
            Some(t) => t.clone(),
            None => "00:00:00".to_string(),
        }
    }

    /// What the tray shows for this payload; the connect item is disabled
    /// only while a connection is being made.
    pub fn render(&self) -> (v: TrayView)
        ensures
            v.tooltip@ == tooltip_text(*self),
            v.connect_label@ == connect_label_text(*self),
            v.connect_enabled == (self.connected || !self.connecting),
            v.stats_time@ == " Session: "@ + shown_time(*self),
            v.stats_pkts@ == pkts_text(shown_count(self.download_pkts), shown_count(self.upload_pkts)),
    {
        let time = self.time_text();
        let dl = match self.download_pkts {
            Some(n) => n,
            None => 0,
        };
        let ul = match self.upload_pkts {
            Some(n) => n,
            None => 0,
        };
        let dl_text = decimal_string(dl);
        let ul_text = decimal_string(ul);
        let server = self.server.as_str();

        let tooltip = if self.connected {
            let mut t = "Connected to ".to_string();
            t.append(server);
            t.append(" | ");
            t.append(time.as_str());
            t.append(" | \u{2193}");
            t.append(dl_text.as_str());
            t.append(" \u{2191}");
            t.append(ul_text.as_str());
            t
        } else if self.connecting {
            let mut t = "Connecting to ".to_string();
            t.append(server);
            t.append("...");
            t
        } else {
            "Disconnected".to_string()
        };

        let connect_label = if self.connected {
            let mut t = "Disconnect from ".to_string();
            t.append(server);
            t
        } else if self.connecting {
            "Connecting\u{2026}".to_string()
        } else {
            let mut t = "Connect ".to_string();
            t.append(server);
            t
        };

        let mut stats_time = " Session: ".to_string();
        stats_time.append(time.as_str());

        let mut stats_pkts = " \u{2193} ".to_string();
        stats_pkts.append(dl_text.as_str());
        stats_pkts.append(" pkts  \u{2191} ");
        stats_pkts.append(ul_text.as_str());
        stats_pkts.append(" pkts");

        TrayView {
            tooltip,
            connect_label,
            connect_enabled: self.connected || !self.connecting,
            stats_time,
            stats_pkts,
        }
    }
}

impl TrayView {
    /// What the tray shows before the UI reports any state.
    pub fn initial() -> (v: Self)
        ensures
            v.tooltip@ == "Secular - Disconnected"@,
            v.connect_label@ == "Connect"@,
            v.connect_enabled,
            v.stats_time@ == " Session: 00:00:00"@,
            v.stats_pkts@ == " \u{2193} 0 pkts  \u{2191} 0 pkts"@,
    {
        TrayView {
            tooltip: "Secular - Disconnected".to_string(),
            connect_label: "Connect".to_string(),
            connect_enabled: true,
            stats_time: " Session: 00:00:00".to_string(),
            stats_pkts: " \u{2193} 0 pkts  \u{2191} 0 pkts".to_string(),
        }
    }
}

/// The icon files tried for a tray icon name, in order.
pub fn tray_icon_candidates(name: &str) -> (v: Vec<String>)
    ensures
        v@.len() == 2,
        v@[0]@ == "icons/"@ + name@ + ".png"@,
        v@[1]@ == "icons/"@ + name@ + "@2x.png"@,
{
    let mut a = "icons/".to_string();
    a.append(name);
    a.append(".png");
    let mut b = "icons/".to_string();
    b.append(name);
    b.append("@2x.png");
    let mut v: Vec<String> = Vec::new();
    v.push(a);
    v.push(b);
    v
}

} // verus!
