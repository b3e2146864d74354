//! The report renderer: a pure function from health results to the
//! plain-text status table and its summary line.

use vstd::prelude::*;
use crate::health::{HealthResult, HealthResultView, Outcome, OutcomeView, count_online, summarize};
use crate::text::{dec_spec, repeated, u64_to_dec, repeat_str};

verus! {

/// The status cell of one row: an online or offline tag with its indicator.
pub open spec fn status_cell_spec(outcome: OutcomeView) -> Seq<char> {
    if outcome is Online {
        "[ONLINE]  ●"@
    } else {
        "[OFFLINE] ○"@
    }
}

/// The filled circle for an online service, the hollow one for an offline
/// service.
pub fn status_indicator(online: bool) -> (r: String)
    ensures
        r@ == if online { "●"@ } else { "○"@ },
{
    if online {
        "●".to_owned()
    } else {
        "○".to_owned()
    }
}

/// Spaces that pad a name display out to column 16; always at least one.
pub open spec fn row_padding(display_len: nat) -> nat {
    if display_len < 16 {
        (16 - display_len) as nat
    } else {
        1
    }
}

/// One table row: icon and name, padding, status cell; in detailed mode also
/// the description and, for an offline service, its failure reason.
pub open spec fn row_spec(r: HealthResultView, detailed: bool) -> Seq<char> {
    let name_display = r.service.icon + " "@ + r.service.name;
    let base = "  "@ + name_display + repeated(" "@, row_padding(name_display.len()))
        + status_cell_spec(r.outcome);
    let with_details = if detailed {
        base + "  "@ + r.service.description + (match r.outcome {
            OutcomeView::Offline { reason } => " - "@ + reason,
            OutcomeView::Online { .. } => Seq::<char>::empty(),
        })
    } else {
        base
    };
    with_details + "\n"@
}

/// All rows, one per result, in result order.
pub open spec fn rows_spec(results: Seq<HealthResultView>, detailed: bool) -> Seq<char>
    decreases results.len(),
{
    if results.len() == 0 {
        Seq::empty()
    } else {
        rows_spec(results.drop_last(), detailed) + row_spec(results.last(), detailed)
    }
}

/// The table header line.
pub open spec fn table_header_spec(detailed: bool) -> Seq<char> {
    if detailed {
        "  SERVICE          STATUS       DETAILS\n"@
    } else {
        "  SERVICE          STATUS\n"@
    }
}

/// The horizontal divider line.
pub open spec fn divider_spec() -> Seq<char> {
    "  "@ + repeated("─"@, 60) + "\n"@
}

/// The summary line: a distinct message when every service is online,
/// otherwise the online count over the total.
pub open spec fn summary_spec(online: nat, total: nat) -> Seq<char> {
    if online == total {
        "  ✓ All "@ + dec_spec(total) + " services operational"@
    } else {
        "  ⚠ "@ + dec_spec(online) + "/"@ + dec_spec(total) + " services online"@
    }
}

/// The whole report: header, divider, one row per result, divider, then a
/// blank line and the summary.
pub open spec fn report_spec(results: Seq<HealthResultView>, detailed: bool) -> Seq<char> {
    table_header_spec(detailed) + divider_spec() + rows_spec(results, detailed) + divider_spec()
        + "\n"@ + summary_spec(count_online(results), results.len()) + "\n"@
}

/// Builds the divider line.
fn divider() -> (r: String)
    ensures
        r@ == divider_spec(),
{
    let mut s = "  ".to_owned();
    let bar = repeat_str("─", 60);
    s.append(bar.as_str());
    s.append("\n");
    s
}

/// Builds the summary line, exactly as [`summary_spec`] says.
pub fn summary_line(online: usize, total: usize) -> (r: String)
    ensures
        r@ == summary_spec(online as nat, total as nat),
{
    if online == total {
        let mut s = "  ✓ All ".to_owned();
        let t = u64_to_dec(total as u64);
        s.append(t.as_str());
        s.append(" services operational");
        s
    } else {
        let mut s = "  ⚠ ".to_owned();
        let on = u64_to_dec(online as u64);
        s.append(on.as_str());
        s.append("/");
        let t = u64_to_dec(total as u64);
        s.append(t.as_str());
        s.append(" services online");
        s
    }
}

/// Builds one table row, exactly as [`row_spec`] says.
pub fn render_row(r: &HealthResult, detailed: bool) -> (line: String)
    ensures
        line@ == row_spec(r@, detailed),
{
    let mut name_display = r.service.icon.clone();
    name_display.append(" ");
    name_display.append(r.service.name.as_str());
    let display_len = name_display.as_str().unicode_len();
    let pad: usize = if display_len < 16 {
        16 - display_len
    } else {
        1
    };
    let mut line = "  ".to_owned();
    line.append(name_display.as_str());
    let spaces = repeat_str(" ", pad);
    line.append(spaces.as_str());
    match &r.outcome {
        Outcome::Online { .. } => line.append("[ONLINE]  ●"),
        Outcome::Offline { .. } => line.append("[OFFLINE] ○"),
    }
    if detailed {
        line.append("  ");
        line.append(r.service.description.as_str());
        match &r.outcome {
            Outcome::Offline { reason } => {
                line.append(" - ");
                line.append(reason.as_str());
            },
            Outcome::Online { .. } => {},
        }
    }
    line.append("\n");
    assert(line@ =~= row_spec(r@, detailed));
    line
}

/// Renders the full status report, exactly as [`report_spec`] says.
pub fn render_report(results: &Vec<HealthResult>, detailed: bool) -> (r: String)
    ensures
        r@ == report_spec(results@.map_values(|x: HealthResult| x@), detailed),
{
    let ghost resv = results@.map_values(|x: HealthResult| x@);
    let mut rows = String::new();
    let mut i: usize = 0;
    while i < results.len()
        invariant
            resv == results@.map_values(|x: HealthResult| x@),
            i <= results@.len(),
            rows@ == rows_spec(resv.take(i as int), detailed),
        decreases results@.len() - i,
    {
        proof {
            assert(resv.take(i + 1).drop_last() =~= resv.take(i as int));
            assert(resv.take(i + 1).last() == results@[i as int]@);
        }
        let line = render_row(&results[i], detailed);
        rows.append(line.as_str());
        i = i + 1;
    }
    proof {
        assert(resv.take(results@.len() as int) =~= resv);
    }
    let online = summarize(results);
    let total = results.len();
    let mut r = if detailed {
        "  SERVICE          STATUS       DETAILS\n".to_owned()
    } else {
        "  SERVICE          STATUS\n".to_owned()
    };
    let d = divider();
    r.append(d.as_str());
    r.append(rows.as_str());
    r.append(d.as_str());
    r.append("\n");
    let summary = summary_line(online, total);
    r.append(summary.as_str());
    r.append("\n");
    assert(r@ =~= report_spec(resv, detailed));
    r
}

} // verus!
