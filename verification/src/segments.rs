//! The segment producers' compute halves: what each status-bar segment
//! shows, given the plain values its probe read.
//!
//! The probes themselves are subprocesses, the mixer, and system readers;
//! the surrounding binary runs them, converts their answers to plain
//! values, and calls these functions to build the segments. Icon and
//! color choice, numeric display, and probe-output parsing are decided
//! and verified here.

use vstd::prelude::*;

use crate::alert::AlertState;
use crate::segment::{ClickView, MouseButton, Segment};
use crate::text::{colon_fields, dec_of, dec_u8, split_colon, str_eq, trim_back, trim_end};
use crate::volume::{icon, icon_of};

verus! {

/// The keyboard segment's text: the second colon-separated field of the
/// input-method engine's name, or a placeholder when the name has no
/// second field.
pub open spec fn keyboard_text_of(engine: Seq<char>) -> Seq<char> {
    "\u{2328} "@ + if colon_fields(engine).len() > 1 {
        colon_fields(engine)[1]
    } else {
        "N/A"@
    }
}

/// Builds the keyboard-layout segment from the input-method engine name
/// the probe printed, such as the `us` in `xkb:us::eng`.
pub fn keyboard_segment(engine: &str) -> (s: Segment)
    ensures
        s@.text == keyboard_text_of(engine@),
        s@.color is None,
        s@.clicks == Seq::<ClickView>::empty(),
{
    let fields = split_colon(engine);
    let mut text = String::from_str("\u{2328} ");
    if fields.len() > 1 {
        text.append(fields[1].as_str());
    } else {
        text.append("N/A");
    }
    Segment::new(text)
}

/// The connectivity marker: nothing when the check answered `full`, an
/// alarm for a limited answer, a question mark for anything else.
pub open spec fn net_status_of(connectivity: Seq<char>) -> Seq<char> {
    let t = trim_back(connectivity);
    if t == "full"@ {
        ""@
    } else if t == "portal"@ || t == "limited"@ || t == "none"@ {
        "!"@
    } else {
        "?"@
    }
}

/// The icon for the active connection's kind, its third colon-separated
/// field: wired, wireless, or unknown.
pub open spec fn net_icon_of(fields: Seq<Seq<char>>) -> Seq<char> {
    if fields.len() > 2 {
        if fields[2] == "802-3-ethernet"@ {
            "\u{f0e8}"@
        } else if fields[2] == "802-11-wireless"@ {
            "\u{f1eb}"@
        } else {
            "\u{f1eb}\u{fe56}"@
        }
    } else {
        "\u{f1eb}\u{fe56}"@
    }
}

/// The displayed connection name: the first field, or a fixed word when
/// no connection is active.
pub open spec fn net_name_of(fields: Seq<Seq<char>>) -> Seq<char> {
    if fields[0].len() == 0 {
        "Disconnected"@
    } else {
        fields[0]
    }
}

/// The network segment's color: alarm red when disconnected, green
/// otherwise.
pub open spec fn net_color_of(fields: Seq<Seq<char>>) -> Seq<char> {
    if fields[0].len() == 0 {
        "#BB5555"@
    } else {
        "#99ee99"@
    }
}

/// Builds the network segment from the two probe answers: the active
/// connection's colon-separated description, and the connectivity
/// check's word.
pub fn network_segment(connection: &str, connectivity: &str) -> (s: Segment)
    ensures
        s@.text == net_icon_of(colon_fields(connection@)) + " "@ + net_name_of(
            colon_fields(connection@),
        ) + net_status_of(connectivity@),
        s@.color == Some(net_color_of(colon_fields(connection@))),
        s@.clicks == Seq::<ClickView>::empty(),
{
    let fields = split_colon(connection);
    let icon_str = if fields.len() > 2 {
        if str_eq(fields[2].as_str(), "802-3-ethernet") {
            "\u{f0e8}"
        } else if str_eq(fields[2].as_str(), "802-11-wireless") {
            "\u{f1eb}"
        } else {
            "\u{f1eb}\u{fe56}"
        }
    } else {
        "\u{f1eb}\u{fe56}"
    };
    let t = trim_end(connectivity);
    let status = if str_eq(t.as_str(), "full") {
        ""
    } else if str_eq(t.as_str(), "portal") || str_eq(t.as_str(), "limited") || str_eq(
        t.as_str(),
        "none",
    ) {
        "!"
    } else {
        "?"
    };
    let mut text = String::from_str(icon_str);
    text.append(" ");
    let color: &'static str;
    if fields[0].as_str().is_empty() {
        text.append("Disconnected");
        color = "#BB5555";
    } else {
        text.append(fields[0].as_str());
        color = "#99ee99";
    }
    text.append(status);
    Segment::colored(text, String::from_str(color))
}

/// The temperature icon: a fuller thermometer for each warmer band.
pub open spec fn temp_icon_of(t: int) -> Seq<char> {
    if t <= 59 {
        "\u{f2cb}"@
    } else if t <= 69 {
        "\u{f2ca}"@
    } else if t <= 79 {
        "\u{f2c9}"@
    } else if t <= 89 {
        "\u{f2c8}"@
    } else {
        "\u{f2c7}"@
    }
}

/// The temperature icon for a reading of `t` whole degrees.
pub fn temp_icon(t: u32) -> (r: &'static str)
    ensures
        r@ == temp_icon_of(t as int),
{
    if t <= 59 {
        "\u{f2cb}"
    } else if t <= 69 {
        "\u{f2ca}"
    } else if t <= 79 {
        "\u{f2c9}"
    } else if t <= 89 {
        "\u{f2c8}"
    } else {
        "\u{f2c7}"
    }
}

/// Builds the temperature segment: the band icon for `t` whole degrees,
/// then the probe's displayed reading.
pub fn temp_segment(t: u32, display: &str) -> (s: Segment)
    ensures
        s@.text == temp_icon_of(t as int) + " "@ + display@ + " \u{00b0}C"@,
        s@.color == Some("#10ff10"@),
        s@.clicks == Seq::<ClickView>::empty(),
{
    let mut text = String::from_str(temp_icon(t));
    text.append(" ");
    text.append(display);
    text.append(" \u{00b0}C");
    Segment::colored(text, String::from_str("#10ff10"))
}

/// Builds the free-disk-space segment from the probe's displayed amount.
pub fn disk_segment(avail: &str) -> (s: Segment)
    ensures
        s@.text == "\u{f0a0} "@ + avail@,
        s@.color == Some("#cccccc"@),
        s@.clicks == Seq::<ClickView>::empty(),
{
    let mut text = String::from_str("\u{f0a0} ");
    text.append(avail);
    Segment::colored(text, String::from_str("#cccccc"))
}

/// Builds the load-average segment from the probe's displayed reading.
pub fn load_segment(load: &str) -> (s: Segment)
    ensures
        s@.text == "\u{f0e4} "@ + load@,
        s@.color == Some("#cc9999"@),
        s@.clicks == Seq::<ClickView>::empty(),
{
    let mut text = String::from_str("\u{f0e4} ");
    text.append(load);
    Segment::colored(text, String::from_str("#cc9999"))
}

/// Builds the free-memory segment from the probe's displayed amount in
/// gigabytes.
pub fn memory_segment(gb: &str) -> (s: Segment)
    ensures
        s@.text == "\u{f2db} "@ + gb@ + " G"@,
        s@.color == Some("#ffc300"@),
        s@.clicks == Seq::<ClickView>::empty(),
{
    let mut text = String::from_str("\u{f2db} ");
    text.append(gb);
    text.append(" G");
    Segment::colored(text, String::from_str("#ffc300"))
}

/// The battery icon: an emptier battery for each lower band, and nothing
/// at all for a full battery still on the charger.
pub open spec fn battery_icon_of(capacity: int, charging: bool) -> Seq<char> {
    if capacity <= 19 {
        "\u{f244}"@
    } else if capacity <= 39 {
        "\u{f243}"@
    } else if capacity <= 59 {
        "\u{f242}"@
    } else if capacity <= 79 {
        "\u{f241}"@
    } else if capacity <= 99 {
        "\u{f240}"@
    } else if capacity == 100 && charging {
        ""@
    } else {
        "\u{f240}"@
    }
}

/// The battery color, red through green by capacity band.
pub open spec fn battery_color_of(capacity: int) -> Seq<char> {
    if capacity <= 19 {
        "#FF4000"@
    } else if capacity <= 39 {
        "#FFAE00"@
    } else if capacity <= 59 {
        "#FFF600"@
    } else if capacity <= 79 {
        "#A8FF00"@
    } else {
        "#50FF00"@
    }
}

/// The bolt shown in front of the icon while on the charger.
pub open spec fn charge_marker_of(charging: bool) -> Seq<char> {
    if charging {
        "\u{f0e7}"@
    } else {
        ""@
    }
}

/// The battery icon and color for a capacity in percent.
pub fn battery_icon(capacity: u8, charging: bool) -> (r: (&'static str, &'static str))
    ensures
        r.0@ == battery_icon_of(capacity as int, charging),
        r.1@ == battery_color_of(capacity as int),
{
    if capacity <= 19 {
        ("\u{f244}", "#FF4000")
    } else if capacity <= 39 {
        ("\u{f243}", "#FFAE00")
    } else if capacity <= 59 {
        ("\u{f242}", "#FFF600")
    } else if capacity <= 79 {
        ("\u{f241}", "#A8FF00")
    } else if capacity <= 99 {
        ("\u{f240}", "#50FF00")
    } else if capacity == 100 && charging {
        ("", "#50FF00")
    } else {
        ("\u{f240}", "#50FF00")
    }
}

/// The low-battery alert condition: capacity at or under ten percent
/// while not on the charger.
pub open spec fn battery_low(capacity: int, charging: bool) -> bool {
    capacity <= 10 && !charging
}

/// The battery segment's text: charge marker, band icon, then the
/// capacity in percent.
pub open spec fn battery_text_of(capacity: int, charging: bool) -> Seq<char> {
    charge_marker_of(charging) + battery_icon_of(capacity, charging) + " "@ + dec_of(capacity)
        + "%"@
}

/// Builds the battery segment for a capacity in percent.
pub fn battery_segment(capacity: u8, charging: bool) -> (s: Segment)
    ensures
        s@.text == battery_text_of(capacity as int, charging),
        s@.color == Some(battery_color_of(capacity as int)),
        s@.clicks == Seq::<ClickView>::empty(),
{
    let (ic, col) = battery_icon(capacity, charging);
    let mut text = String::from_str(if charging {
        "\u{f0e7}"
    } else {
        ""
    });
    text.append(ic);
    text.append(" ");
    let d = dec_u8(capacity);
    text.append(d.as_str());
    text.append("%");
    Segment::colored(text, String::from_str(col))
}

/// One battery poll: steps the owned alert state with the low-battery
/// condition and builds the segment. The first result says whether the
/// critical-battery notification is to be dispatched now — exactly on
/// entering a continuous low period, never inside one.
pub fn battery_poll(alert: &mut AlertState, capacity: u8, charging: bool) -> (r: (
    bool,
    Segment,
))
    ensures
        r.0 == (battery_low(capacity as int, charging) && !old(alert).warned),
        final(alert).warned == battery_low(capacity as int, charging),
        r.1@.text == battery_text_of(capacity as int, charging),
        r.1@.color == Some(battery_color_of(capacity as int)),
        r.1@.clicks == Seq::<ClickView>::empty(),
{
    let low = capacity <= 10 && !charging;
    let fire = alert.step(low);
    let seg = battery_segment(capacity, charging);
    (fire, seg)
}

/// The music segment's text while a player is present: play or pause
/// icon, then artist and title.
pub open spec fn music_text_of(playing: bool, artist: Seq<char>, title: Seq<char>) -> Seq<
    char,
> {
    (if playing {
        "\u{f04b}"@
    } else {
        "\u{f04c}"@
    }) + "  "@ + artist + " - "@ + title
}

/// Builds the media-player segment. With no player present the segment
/// is empty and inert; with one, it shows the playback state and the
/// song, and binds the skip and play-pause actions to the mouse.
pub fn music_segment(playback: Option<bool>, artist: &str, title: &str) -> (s: Segment)
    ensures
        match playback {
            Some(playing) => {
                &&& s@.text == music_text_of(playing, artist@, title@)
                &&& s@.color == Some("#9090ff"@)
                &&& s@.clicks =~= seq![
                    ClickView { button: MouseButton::Left, action: "mus_prev"@ },
                    ClickView { button: MouseButton::Middle, action: "mus_toggle"@ },
                    ClickView { button: MouseButton::Right, action: "mus_next"@ },
                ]
            },
            None => {
                &&& s@.text == ""@
                &&& s@.color is None
                &&& s@.clicks == Seq::<ClickView>::empty()
            },
        },
{
    match playback {
        Some(playing) => {
            let mut text = String::from_str(if playing {
                "\u{f04b}"
            } else {
                "\u{f04c}"
            });
            text.append("  ");
            text.append(artist);
            text.append(" - ");
            text.append(title);
            let s = Segment::colored(text, String::from_str("#9090ff"));
            let s = s.with_click(MouseButton::Left, String::from_str("mus_prev"));
            let s = s.with_click(MouseButton::Middle, String::from_str("mus_toggle"));
            let s = s.with_click(MouseButton::Right, String::from_str("mus_next"));
            s
        },
        None => Segment::new(String::from_str("")),
    }
}

/// The volume segment's text: a fixed mute marker while muted, else the
/// level icon and the level in percent.
pub open spec fn volume_text_of(muted: bool, vol: int) -> Seq<char> {
    if muted {
        "\u{1f507} MUTE"@
    } else {
        icon_of(vol) + " "@ + dec_of(vol) + "%"@
    }
}

/// Builds the volume segment for the mixer's state: mute switch and
/// level in percent. The scroll wheel adjusts, middle click toggles
/// mute, left click opens the device picker.
pub fn volume_segment(muted: bool, vol: u8) -> (s: Segment)
    ensures
        s@.text == volume_text_of(muted, vol as int),
        s@.color == Some("#9090ff"@),
        s@.clicks =~= seq![
            ClickView { button: MouseButton::ScrollDown, action: "vol_down"@ },
            ClickView { button: MouseButton::ScrollUp, action: "vol_up"@ },
            ClickView { button: MouseButton::Middle, action: "vol_mute"@ },
            ClickView { button: MouseButton::Left, action: "device_menu"@ },
        ],
{
    let text = if muted {
        String::from_str("\u{1f507} MUTE")
    } else {
        let mut t = String::from_str(icon(vol));
        t.append(" ");
        let d = dec_u8(vol);
        t.append(d.as_str());
        t.append("%");
        t
    };
    let s = Segment::colored(text, String::from_str("#9090ff"));
    let s = s.with_click(MouseButton::ScrollDown, String::from_str("vol_down"));
    let s = s.with_click(MouseButton::ScrollUp, String::from_str("vol_up"));
    let s = s.with_click(MouseButton::Middle, String::from_str("vol_mute"));
    let s = s.with_click(MouseButton::Left, String::from_str("device_menu"));
    s
}

/// Builds the backlight segment for a brightness in percent. The scroll
/// wheel adjusts the backlight.
pub fn brightness_segment(percent: u8) -> (s: Segment)
    ensures
        s@.text == "\u{2600} "@ + dec_of(percent as int) + "%"@,
        s@.color == Some("#ffff55"@),
        s@.clicks =~= seq![
            ClickView { button: MouseButton::ScrollUp, action: "bright_up"@ },
            ClickView { button: MouseButton::ScrollDown, action: "bright_down"@ },
        ],
{
    let mut text = String::from_str("\u{2600} ");
    let d = dec_u8(percent);
    text.append(d.as_str());
    text.append("%");
    let s = Segment::colored(text, String::from_str("#ffff55"));
    let s = s.with_click(MouseButton::ScrollUp, String::from_str("bright_up"));
    let s = s.with_click(MouseButton::ScrollDown, String::from_str("bright_down"));
    s
}

} // verus!
