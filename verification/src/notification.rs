//! Composition of the administrative notification.
//!
//! A validated report is rendered twice over the same six fields — reporter
//! identity, event id, room id, original sender, severity score and reason —
//! once as a plain-text block and once as nested rich markup.  Only the
//! reason is reporter-controlled free text, and only the rich rendering
//! interprets markup, so the reason is escaped there and nowhere else.

use vstd::prelude::*;
use vstd::string::StringExecFns;
use crate::escape::escape_markup;
use crate::escape::escape_seq;
use crate::store::EventRecord;
use crate::store::EventRecordView;

verus! {

/// A composed notification: the same report rendered as plain text and as
/// rich markup.
pub struct Notification {
    pub plain: String,
    pub rich: String,
}

/// The mathematical content of a [`Notification`]: both renderings as
/// character sequences.
pub struct NotificationView {
    pub plain: Seq<char>,
    pub rich: Seq<char>,
}

impl View for Notification {
    type V = NotificationView;

    open spec fn view(&self) -> NotificationView {
        NotificationView { plain: self.plain@, rich: self.rich@ }
    }
}

/// The decimal digit character of `d`, for `0 <= d <= 9`.
pub open spec fn digit_char(d: int) -> char {
    if d == 0 {
        '0'
    } else if d == 1 {
        '1'
    } else if d == 2 {
        '2'
    } else if d == 3 {
        '3'
    } else if d == 4 {
        '4'
    } else if d == 5 {
        '5'
    } else if d == 6 {
        '6'
    } else if d == 7 {
        '7'
    } else if d == 8 {
        '8'
    } else {
        '9'
    }
}

/// The decimal rendering of a score magnitude, for `1 <= m <= 100`.
pub open spec fn magnitude_text(m: int) -> Seq<char> {
    if m == 100 {
        seq!['1', '0', '0']
    } else if m >= 10 {
        seq![digit_char(m / 10), digit_char(m % 10)]
    } else {
        seq![digit_char(m)]
    }
}

/// The decimal rendering of a score, for `-100 <= score <= 0`: zero as `0`,
/// a negative score as a minus sign before its magnitude.
pub open spec fn score_text(score: int) -> Seq<char> {
    if score == 0 {
        seq!['0']
    } else {
        seq!['-'] + magnitude_text(-score)
    }
}

/// The plain-text rendering: the six fields each on their own line, in fixed
/// order, with the reason verbatim.
pub open spec fn plain_body(
    reporter: Seq<char>,
    event_id: Seq<char>,
    room_id: Seq<char>,
    sender: Seq<char>,
    score: int,
    reason: Seq<char>,
) -> Seq<char> {
    "Report received from: "@ + reporter + "\n\nEvent ID: "@ + event_id + "\nRoom ID: "@ + room_id
        + "\nSent By: "@ + sender + "\n\nReport Score: "@ + score_text(score)
        + "\nReport Reason: "@ + reason
}

/// Everything of the rich rendering that precedes the escaped reason: a
/// collapsible summary keyed by the reporter, an event-info section with
/// event id, room id and original sender, and the opening of the report-info
/// section with the score.
pub open spec fn rich_lead(
    reporter: Seq<char>,
    event_id: Seq<char>,
    room_id: Seq<char>,
    sender: Seq<char>,
    score: int,
) -> Seq<char> {
    "<details><summary>Report received from: <a href=\"https://matrix.to/#/"@ + reporter + "\">"@
        + reporter + "</a></summary><ul><li>Event Info<ul><li>Event ID: <code>"@ + event_id
        + "</code></li><li>Room ID: <code>"@ + room_id
        + "</code></li><li>Sent By: <a href=\"https://matrix.to/#/"@ + sender + "\">"@ + sender
        + "</a></li></ul></li><li>Report Info<ul><li>Report Score: "@ + score_text(score)
        + "</li><li>Report Reason: "@
}

/// Everything of the rich rendering that follows the escaped reason: the
/// closing tags.
pub open spec fn rich_tail() -> Seq<char> {
    "</li></ul></li></ul></details>"@
}

/// The rich-markup rendering: the lead, then the reason in escaped form, then
/// the closing tags.  The reason is the only reporter-controlled free text
/// and appears here only through [`escape_seq`].
pub open spec fn rich_body(
    reporter: Seq<char>,
    event_id: Seq<char>,
    room_id: Seq<char>,
    sender: Seq<char>,
    score: int,
    reason: Seq<char>,
) -> Seq<char> {
    rich_lead(reporter, event_id, room_id, sender, score) + escape_seq(reason) + rich_tail()
}

/// Both renderings of a report about the event `rec`, as one notification.
pub open spec fn report_notification(
    reporter: Seq<char>,
    rec: EventRecordView,
    score: int,
    reason: Seq<char>,
) -> NotificationView {
    NotificationView {
        plain: plain_body(reporter, rec.event_id, rec.room_id, rec.sender, score, reason),
        rich: rich_body(reporter, rec.event_id, rec.room_id, rec.sender, score, reason),
    }
}

/// The plain rendering carries the reason verbatim: it is exactly the suffix
/// after the fixed fields, unescaped.
pub proof fn lemma_plain_body_ends_with_reason(
    reporter: Seq<char>,
    event_id: Seq<char>,
    room_id: Seq<char>,
    sender: Seq<char>,
    score: int,
    reason: Seq<char>,
)
    ensures
        plain_body(reporter, event_id, room_id, sender, score, reason).len() >= reason.len(),
        plain_body(reporter, event_id, room_id, sender, score, reason).subrange(
            plain_body(reporter, event_id, room_id, sender, score, reason).len() - reason.len(),
            plain_body(reporter, event_id, room_id, sender, score, reason).len() as int,
        ) == reason,
{
    let p = plain_body(reporter, event_id, room_id, sender, score, reason);
    assert(p.subrange(p.len() - reason.len(), p.len() as int) =~= reason);
}

/// The static digit string of `d`, for `0 <= d <= 9`.
fn digit_str(d: i64) -> (s: &'static str)
    requires
        0 <= d <= 9,
    ensures
        s@ == seq![digit_char(d as int)],
{
    if d == 0 {
        proof {
            reveal_strlit("0");
            assert("0"@ =~= seq!['0']);
        }
        "0"
    } else if d == 1 {
        proof {
            reveal_strlit("1");
            assert("1"@ =~= seq!['1']);
        }
        "1"
    } else if d == 2 {
        proof {
            reveal_strlit("2");
            assert("2"@ =~= seq!['2']);
        }
        "2"
    } else if d == 3 {
        proof {
            reveal_strlit("3");
            assert("3"@ =~= seq!['3']);
        }
        "3"
    } else if d == 4 {
        proof {
            reveal_strlit("4");
            assert("4"@ =~= seq!['4']);
        }
        "4"
    } else if d == 5 {
        proof {
            reveal_strlit("5");
            assert("5"@ =~= seq!['5']);
        }
        "5"
    } else if d == 6 {
        proof {
            reveal_strlit("6");
            assert("6"@ =~= seq!['6']);
        }
        "6"
    } else if d == 7 {
        proof {
            reveal_strlit("7");
            assert("7"@ =~= seq!['7']);
        }
        "7"
    } else if d == 8 {
        proof {
            reveal_strlit("8");
            assert("8"@ =~= seq!['8']);
        }
        "8"
    } else {
        proof {
            reveal_strlit("9");
            assert("9"@ =~= seq!['9']);
        }
        "9"
    }
}

/// Appends the decimal rendering of `score` to `out`.
fn push_score(out: &mut String, score: i64)
    requires
        -100 <= score <= 0,
    ensures
        final(out)@ == old(out)@ + score_text(score as int),
{
    if score == 0 {
        out.append("0");
        proof {
            reveal_strlit("0");
            assert("0"@ =~= seq!['0']);
        }
    } else {
        out.append("-");
        proof {
            reveal_strlit("-");
            assert("-"@ =~= seq!['-']);
        }
        let m: i64 = -score;
        if m == 100 {
            out.append("100");
            proof {
                reveal_strlit("100");
                assert("100"@ =~= seq!['1', '0', '0']);
                assert(out@ =~= old(out)@ + score_text(score as int));
            }
        } else if m >= 10 {
            let tens: i64 = m / 10;
            let ones: i64 = m % 10;
            out.append(digit_str(tens));
            out.append(digit_str(ones));
            proof {
                assert(out@ =~= old(out)@ + score_text(score as int));
            }
        } else {
            out.append(digit_str(m));
            proof {
                assert(out@ =~= old(out)@ + score_text(score as int));
            }
        }
    }
}

/// Composes the notification for a validated report: the plain and rich
/// renderings of the six fields, with the reason escaped in the rich form
/// only.
pub fn compose_notification(reporter: &String, rec: &EventRecord, score: i64, reason: &String) -> (n:
    Notification)
    requires
        -100 <= score <= 0,
    ensures
        n@ == report_notification(reporter@, rec@, score as int, reason@),
{
    let mut plain = String::new();
    plain.append("Report received from: ");
    plain.append(reporter.as_str());
    plain.append("\n\nEvent ID: ");
    plain.append(rec.event_id.as_str());
    plain.append("\nRoom ID: ");
    plain.append(rec.room_id.as_str());
    plain.append("\nSent By: ");
    plain.append(rec.sender.as_str());
    plain.append("\n\nReport Score: ");
    push_score(&mut plain, score);
    plain.append("\nReport Reason: ");
    plain.append(reason.as_str());
    proof {
        assert(plain@ =~= plain_body(
            reporter@,
            rec@.event_id,
            rec@.room_id,
            rec@.sender,
            score as int,
            reason@,
        ));
    }
    let mut rich = String::new();
    rich.append("<details><summary>Report received from: <a href=\"https://matrix.to/#/");
    rich.append(reporter.as_str());
    rich.append("\">");
    rich.append(reporter.as_str());
    rich.append("</a></summary><ul><li>Event Info<ul><li>Event ID: <code>");
    rich.append(rec.event_id.as_str());
    rich.append("</code></li><li>Room ID: <code>");
    rich.append(rec.room_id.as_str());
    rich.append("</code></li><li>Sent By: <a href=\"https://matrix.to/#/");
    rich.append(rec.sender.as_str());
    rich.append("\">");
    rich.append(rec.sender.as_str());
    rich.append("</a></li></ul></li><li>Report Info<ul><li>Report Score: ");
    push_score(&mut rich, score);
    rich.append("</li><li>Report Reason: ");
    let escaped = escape_markup(reason);
    rich.append(escaped.as_str());
    rich.append("</li></ul></li></ul></details>");
    proof {
        assert(rich@ =~= rich_body(
            reporter@,
            rec@.event_id,
            rec@.room_id,
            rec@.sender,
            score as int,
            reason@,
        ));
    }
    Notification { plain, rich }
}

} // verus!
