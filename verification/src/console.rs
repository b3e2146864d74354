//! Console text logic: the canned answer picked for a query, service icons,
//! deploy-target validation, the banner, the framed header, and the pacing
//! of the typewriter effect. All of it is pure text selection and assembly;
//! the printing itself stays with the binary.

use vstd::prelude::*;
use crate::text::{contains_ci, eq_ci, repeated, str_contains_ci, str_eq_ci, repeat_str};

verus! {

/// The canned answer for a query: queries mentioning analysis get the
/// analysis template (with the model name spliced in), status queries the
/// status text, deploy queries the deploy hint, and anything else the
/// generic template (with the model name spliced in). Matching is a
/// case-insensitive substring test, tried in that order.
pub open spec fn mock_response_spec(query: Seq<char>, model: Seq<char>) -> Seq<char> {
    if contains_ci(query, "analyze"@) || contains_ci(query, "sector"@) {
        "Analysis Complete.\n\nBased on my analysis using "@ + model
            + ", I've identified the following patterns:\n\n  • Temporal variance detected in data streams\n  • 3 anomalous signal patterns require attention\n  • Recommended action: Deploy monitoring probes\n\nThis analysis draws from the combined knowledge of the Titan Protocol\necosystem. Shall I elaborate on any specific finding?"@
    } else if contains_ci(query, "status"@) || contains_ci(query, "health"@) {
        "All Titan Protocol subsystems are operating within normal parameters.\nThe CERBERUS gateway is processing requests efficiently, and HERMES\nevent throughput remains optimal."@
    } else if contains_ci(query, "deploy"@) {
        "To deploy services, use the `titan deploy <service>` command.\nEnsure you have proper credentials configured in your environment.\nCurrent deployment targets: staging, production, edge."@
    } else {
        "Query Received.\n\nI've processed your query through the "@ + model
            + " neural architecture.\nThis feature is connected to VORTEX v3 - the Titan Protocol AI Engine.\n\nFor more specific assistance, try:\n  $ titan ask \"analyze sector 7\"\n  $ titan status --detailed\n  $ titan vision --stream"@
    }
}

/// Picks the canned answer for a query, exactly as [`mock_response_spec`]
/// says.
pub fn generate_mock_response(query: &str, model: &str) -> (r: String)
    ensures
        r@ == mock_response_spec(query@, model@),
{
    if str_contains_ci(query, "analyze") || str_contains_ci(query, "sector") {
        let mut s = "Analysis Complete.\n\nBased on my analysis using ".to_owned();
        s.append(model);
        s.append(
            ", I've identified the following patterns:\n\n  • Temporal variance detected in data streams\n  • 3 anomalous signal patterns require attention\n  • Recommended action: Deploy monitoring probes\n\nThis analysis draws from the combined knowledge of the Titan Protocol\necosystem. Shall I elaborate on any specific finding?",
        );
        s
    } else if str_contains_ci(query, "status") || str_contains_ci(query, "health") {
        "All Titan Protocol subsystems are operating within normal parameters.\nThe CERBERUS gateway is processing requests efficiently, and HERMES\nevent throughput remains optimal.".to_owned()
    } else if str_contains_ci(query, "deploy") {
        "To deploy services, use the `titan deploy <service>` command.\nEnsure you have proper credentials configured in your environment.\nCurrent deployment targets: staging, production, edge.".to_owned()
    } else {
        let mut s = "Query Received.\n\nI've processed your query through the ".to_owned();
        s.append(model);
        s.append(
            " neural architecture.\nThis feature is connected to VORTEX v3 - the Titan Protocol AI Engine.\n\nFor more specific assistance, try:\n  $ titan ask \"analyze sector 7\"\n  $ titan status --detailed\n  $ titan vision --stream",
        );
        s
    }
}

/// The icon for a service name, compared case-insensitively; unknown names
/// get the package icon.
pub open spec fn icon_spec(name: Seq<char>) -> Seq<char> {
    if eq_ci(name, "cerberus"@) {
        "🛡️"@
    } else if eq_ci(name, "kronos"@) {
        "⏰"@
    } else if eq_ci(name, "hermes"@) {
        "📨"@
    } else if eq_ci(name, "vortex"@) {
        "🧠"@
    } else if eq_ci(name, "opticus"@) {
        "👁️"@
    } else if eq_ci(name, "all"@) {
        "🌐"@
    } else {
        "📦"@
    }
}

/// Looks up the icon for a service name, exactly as [`icon_spec`] says.
pub fn get_service_icon(service: &str) -> (r: &'static str)
    ensures
        r@ == icon_spec(service@),
{
    if str_eq_ci(service, "cerberus") {
        "🛡️"
    } else if str_eq_ci(service, "kronos") {
        "⏰"
    } else if str_eq_ci(service, "hermes") {
        "📨"
    } else if str_eq_ci(service, "vortex") {
        "🧠"
    } else if str_eq_ci(service, "opticus") {
        "👁️"
    } else if str_eq_ci(service, "all") {
        "🌐"
    } else {
        "📦"
    }
}

/// The deployable targets: the five services, or `all`, case-insensitively.
pub open spec fn valid_service_spec(name: Seq<char>) -> bool {
    ||| eq_ci(name, "cerberus"@)
    ||| eq_ci(name, "kronos"@)
    ||| eq_ci(name, "hermes"@)
    ||| eq_ci(name, "vortex"@)
    ||| eq_ci(name, "opticus"@)
    ||| eq_ci(name, "all"@)
}

/// Whether a name is a deployable target, exactly as [`valid_service_spec`]
/// says.
pub fn is_valid_service(service: &str) -> (r: bool)
    ensures
        r == valid_service_spec(service@),
{
    str_eq_ci(service, "cerberus") || str_eq_ci(service, "kronos") || str_eq_ci(service, "hermes")
        || str_eq_ci(service, "vortex") || str_eq_ci(service, "opticus") || str_eq_ci(
        service,
        "all",
    )
}

/// The console banner.
pub open spec fn banner_spec() -> Seq<char> {
    "\n╔══════════════════════════════════════════════════════════╗\n║                                                          ║\n║              TITAN-CLI : THE OPERATOR CONSOLE            ║\n║                  v1.0.0 | L5 Interface                   ║\n║                                                          ║\n╚══════════════════════════════════════════════════════════╝\n"@
}

/// The banner text shown by the version command.
pub fn banner_text() -> (r: &'static str)
    ensures
        r@ == banner_spec(),
{
    "\n╔══════════════════════════════════════════════════════════╗\n║                                                          ║\n║              TITAN-CLI : THE OPERATOR CONSOLE            ║\n║                  v1.0.0 | L5 Interface                   ║\n║                                                          ║\n╚══════════════════════════════════════════════════════════╝\n"
}

/// Left padding that centres a title inside the 58 columns between the box
/// borders; zero when the title does not fit.
pub open spec fn header_pad_left(title_len: nat) -> nat {
    if title_len <= 58 {
        ((58 - title_len) / 2) as nat
    } else {
        0
    }
}

/// Right padding: whatever of the 58 columns the title and the left padding
/// leave over.
pub open spec fn header_pad_right(title_len: nat) -> nat {
    if title_len <= 58 {
        (58 - title_len - header_pad_left(title_len)) as nat
    } else {
        0
    }
}

/// A three-line framed header with the title centred, 60 columns wide.
pub open spec fn header_box_spec(title: Seq<char>) -> Seq<char> {
    "  ╔"@ + repeated("═"@, 58) + "╗\n  ║"@ + repeated(" "@, header_pad_left(title.len()))
        + title + repeated(" "@, header_pad_right(title.len())) + "║\n  ╚"@ + repeated("═"@, 58)
        + "╝\n"@
}

/// Builds the framed header, exactly as [`header_box_spec`] says.
pub fn header_box(title: &str) -> (r: String)
    ensures
        r@ == header_box_spec(title@),
{
    let tlen = title.unicode_len();
    let pad_left: usize = if tlen <= 58 {
        (58 - tlen) / 2
    } else {
        0
    };
    let pad_right: usize = if tlen <= 58 {
        58 - tlen - pad_left
    } else {
        0
    };
    let bar = repeat_str("═", 58);
    let mut r = "  ╔".to_owned();
    r.append(bar.as_str());
    r.append("╗\n  ║");
    let left = repeat_str(" ", pad_left);
    r.append(left.as_str());
    r.append(title);
    let right = repeat_str(" ", pad_right);
    r.append(right.as_str());
    r.append("║\n  ╚");
    r.append(bar.as_str());
    r.append("╝\n");
    assert(r@ =~= header_box_spec(title@));
    r
}

/// The pause, in milliseconds, after printing one character of a streamed
/// answer: longest after sentence ends, shorter after clause breaks, shorter
/// still after spaces, and shortest otherwise.
pub open spec fn typewriter_delay_spec(c: char) -> u64 {
    if c == '.' || c == '!' || c == '?' || c == '\n' {
        50u64
    } else if c == ',' || c == ':' || c == ';' {
        30u64
    } else if c == ' ' {
        10u64
    } else {
        5u64
    }
}

/// The typewriter pause for one character, exactly as
/// [`typewriter_delay_spec`] says.
pub fn typewriter_delay_ms(c: char) -> (r: u64)
    ensures
        r == typewriter_delay_spec(c),
{
    if c == '.' || c == '!' || c == '?' || c == '\n' {
        50
    } else if c == ',' || c == ':' || c == ';' {
        30
    } else if c == ' ' {
        10
    } else {
        5
    }
}

} // verus!

