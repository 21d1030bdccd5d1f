//! What the status bar shows: a text, a style class and a tooltip.
use vstd::prelude::*;
use crate::action::Action;
use crate::text::{paragraph, same};

verus! {

/// The help that closes every tooltip.
pub const CONTROLS: &'static str = "Left: white / 1800K · Middle: 1800K\nRight: on/off · Scroll: brightness ±5%\nColor and brightness controls turn the LED on.";

/// One status line.
#[derive(Debug)]
pub struct Output {
    /// The text in the bar, in markup.
    pub text: String,
    /// The style class.
    pub class: &'static str,
    /// The tooltip, in markup.
    pub tooltip: String,
}

/// The model of an [`Output`].
#[verifier::ext_equal]
pub struct OutputView {
    pub text: Seq<char>,
    pub class: Seq<char>,
    pub tooltip: Seq<char>,
}

impl View for Output {
    type V = OutputView;

    open spec fn view(&self) -> OutputView {
        OutputView { text: self.text@, class: self.class@, tooltip: self.tooltip@ }
    }
}

/// How a character is written in markup.
pub open spec fn entity(c: char) -> Seq<char> {
    if c == '&' {
        "&amp;"@
    } else if c == '<' {
        "&lt;"@
    } else if c == '>' {
        "&gt;"@
    } else if c == '"' {
        "&quot;"@
    } else if c == '\'' {
        "&apos;"@
    } else {
        seq![c]
    }
}

/// A text written in markup: each character by its entity.
pub open spec fn escaped(s: Seq<char>) -> Seq<char>
    decreases s.len(),
{
    if s.len() == 0 {
        seq![]
    } else {
        escaped(s.drop_last()) + entity(s.last())
    }
}

/// Writes a text in markup.
pub fn escape(s: &str) -> (r: String)
    ensures
        r@ == escaped(s@),
{
    let mut out: String = String::new();
    for c in it: s.chars()
        invariant
            it.seq() == s@,
            out@ == escaped(s@.take(it.index() as int)),
    {
        proof {
            let i = it.index() as int;
            assert(s@.take(i + 1).drop_last() == s@.take(i));
        }
        if c == '&' {
            out.append("&amp;");
        } else if c == '<' {
            out.append("&lt;");
        } else if c == '>' {
            out.append("&gt;");
        } else if c == '"' {
            out.append("&quot;");
        } else if c == '\'' {
            out.append("&apos;");
        } else {
            out.push(c);
        }
    }
    assert(s@.take(s@.len() as int) == s@);
    out
}

/// Markup of a text is made piece by piece.
pub proof fn escaped_concat(a: Seq<char>, b: Seq<char>)
    ensures
        escaped(a + b) == escaped(a) + escaped(b),
    decreases b.len(),
{
    if b.len() == 0 {
        assert(a + b == a);
    } else {
        escaped_concat(a, b.drop_last());
        assert((a + b).drop_last() == a + b.drop_last());
    }
}

proof fn escaped_front(s: Seq<char>)
    requires
        s.len() > 0,
    ensures
        escaped(s) == entity(s[0]) + escaped(s.drop_first()),
{
    let head = seq![s[0]];
    assert(s == head + s.drop_first());
    escaped_concat(head, s.drop_first());
    assert(head.drop_last() == Seq::<char>::empty());
    assert(escaped(Seq::<char>::empty()) == Seq::<char>::empty());
    assert(escaped(head) == entity(s[0]));
}

proof fn reveal_entities()
    ensures
        "&amp;"@ == seq!['&', 'a', 'm', 'p', ';'],
        "&lt;"@ == seq!['&', 'l', 't', ';'],
        "&gt;"@ == seq!['&', 'g', 't', ';'],
        "&quot;"@ == seq!['&', 'q', 'u', 'o', 't', ';'],
        "&apos;"@ == seq!['&', 'a', 'p', 'o', 's', ';'],
{
    reveal_strlit("&amp;");
    reveal_strlit("&lt;");
    reveal_strlit("&gt;");
    reveal_strlit("&quot;");
    reveal_strlit("&apos;");
}

/// Different texts have different markup, so nothing of a text is lost.
pub proof fn escaped_is_injective(a: Seq<char>, b: Seq<char>)
    requires
        escaped(a) == escaped(b),
    ensures
        a == b,
    decreases a.len(),
{
    reveal_entities();
    if a.len() > 0 {
        escaped_front(a);
    }
    if b.len() > 0 {
        escaped_front(b);
    }
    if a.len() > 0 && b.len() > 0 {
        let e = escaped(a);
        let x = entity(a[0]);
        let y = entity(b[0]);
        assert(e[0] == x[0] && e[0] == y[0]);
        if e[0] == '&' {
            assert(e[1] == x[1] && e[1] == y[1]);
            assert(e[2] == x[2] && e[2] == y[2]);
        }
        assert(a[0] == b[0]);
        let n = x.len() as int;
        assert(e.skip(n) == escaped(a.drop_first()));
        assert(e.skip(n) == escaped(b.drop_first()));
        escaped_is_injective(a.drop_first(), b.drop_first());
        assert(a == seq![a[0]] + a.drop_first());
        assert(b == seq![b[0]] + b.drop_first());
    } else {
        assert(a == b);
    }
}

/// Whether one of the five entities stands at index `i` of `t`.
pub open spec fn entity_at(t: Seq<char>, i: int) -> bool {
    ||| "&amp;"@.is_prefix_of(t.skip(i))
    ||| "&lt;"@.is_prefix_of(t.skip(i))
    ||| "&gt;"@.is_prefix_of(t.skip(i))
    ||| "&quot;"@.is_prefix_of(t.skip(i))
    ||| "&apos;"@.is_prefix_of(t.skip(i))
}

/// Markup without tags or quotes, in which every `&` begins an entity.
pub open spec fn plain_markup(t: Seq<char>) -> bool {
    forall|i: int|
        0 <= i < t.len() ==> {
            let c = #[trigger] t[i];
            &&& c != '<' && c != '>' && c != '"' && c != '\''
            &&& c == '&' ==> entity_at(t, i)
        }
}

/// An escaped text holds no tags, no quotes and no stray `&`.
pub proof fn escaped_is_plain(s: Seq<char>)
    ensures
        plain_markup(escaped(s)),
    decreases s.len(),
{
    if s.len() > 0 {
        let a = escaped(s.drop_last());
        let b = entity(s.last());
        escaped_is_plain(s.drop_last());
        reveal_entities();
        let t = a + b;
        assert forall|i: int| 0 <= i < t.len() implies ({
            let c = #[trigger] t[i];
            &&& c != '<' && c != '>' && c != '"' && c != '\''
            &&& c == '&' ==> entity_at(t, i)
        }) by {
            if i < a.len() {
                assert(t[i] == a[i]);
                if a[i] == '&' {
                    assert(entity_at(a, i));
                    assert(t.skip(i) == a.skip(i) + b);
                    assert(entity_at(t, i));
                }
            } else {
                assert(t[i] == b[i - a.len()]);
                if t[i] == '&' {
                    assert(i == a.len());
                    assert(t.skip(i) == b);
                }
            }
        }
    }
}

/// `s` with every `c` replaced by `by`.
pub open spec fn replaced(s: Seq<char>, c: char, by: Seq<char>) -> Seq<char>
    decreases s.len(),
{
    if s.len() == 0 {
        seq![]
    } else {
        replaced(s.drop_last(), c, by) + if s.last() == c {
            by
        } else {
            seq![s.last()]
        }
    }
}

/// The special characters replaced one after the other, `&` first.
pub open spec fn replaced_in_turn(s: Seq<char>) -> Seq<char> {
    let s1 = replaced(s, '&', "&amp;"@);
    let s2 = replaced(s1, '<', "&lt;"@);
    let s3 = replaced(s2, '>', "&gt;"@);
    let s4 = replaced(s3, '"', "&quot;"@);
    replaced(s4, '\'', "&apos;"@)
}

proof fn replaced_concat(a: Seq<char>, b: Seq<char>, c: char, by: Seq<char>)
    ensures
        replaced(a + b, c, by) == replaced(a, c, by) + replaced(b, c, by),
    decreases b.len(),
{
    if b.len() == 0 {
        assert(a + b == a);
    } else {
        replaced_concat(a, b.drop_last(), c, by);
        assert((a + b).drop_last() == a + b.drop_last());
    }
}

proof fn replaced_absent(s: Seq<char>, c: char, by: Seq<char>)
    requires
        forall|i: int| 0 <= i < s.len() ==> s[i] != c,
    ensures
        replaced(s, c, by) == s,
    decreases s.len(),
{
    if s.len() > 0 {
        replaced_absent(s.drop_last(), c, by);
        assert(s.drop_last().push(s.last()) == s);
    }
}

proof fn replaced_alone(c: char, by: Seq<char>)
    ensures
        replaced(seq![c], c, by) == by,
{
    assert(seq![c].drop_last() == Seq::<char>::empty());
    assert(replaced(Seq::<char>::empty(), c, by) == Seq::<char>::empty());
    assert(replaced(seq![c], c, by) == by);
}

proof fn replaced_in_turn_alone(c: char)
    ensures
        replaced_in_turn(seq![c]) == entity(c),
{
    reveal_entities();
    let s0 = seq![c];
    if c == '&' {
        replaced_alone(c, "&amp;"@);
    } else {
        replaced_absent(s0, '&', "&amp;"@);
    }
    let s1 = replaced(s0, '&', "&amp;"@);
    if c == '<' {
        replaced_alone(c, "&lt;"@);
    } else {
        replaced_absent(s1, '<', "&lt;"@);
    }
    let s2 = replaced(s1, '<', "&lt;"@);
    if c == '>' {
        replaced_alone(c, "&gt;"@);
    } else {
        replaced_absent(s2, '>', "&gt;"@);
    }
    let s3 = replaced(s2, '>', "&gt;"@);
    if c == '"' {
        replaced_alone(c, "&quot;"@);
    } else {
        replaced_absent(s3, '"', "&quot;"@);
    }
    let s4 = replaced(s3, '"', "&quot;"@);
    if c == '\'' {
        replaced_alone(c, "&apos;"@);
    } else {
        replaced_absent(s4, '\'', "&apos;"@);
    }
}

/// Escaping gives what replacing the special characters one after the other gives.
pub proof fn escaped_is_replaced_in_turn(s: Seq<char>)
    ensures
        escaped(s) == replaced_in_turn(s),
    decreases s.len(),
{
    if s.len() > 0 {
        let a = s.drop_last();
        let b = seq![s.last()];
        escaped_is_replaced_in_turn(a);
        replaced_in_turn_alone(s.last());
        assert(s == a + b);
        replaced_concat(a, b, '&', "&amp;"@);
        let (a1, b1) = (replaced(a, '&', "&amp;"@), replaced(b, '&', "&amp;"@));
        replaced_concat(a1, b1, '<', "&lt;"@);
        let (a2, b2) = (replaced(a1, '<', "&lt;"@), replaced(b1, '<', "&lt;"@));
        replaced_concat(a2, b2, '>', "&gt;"@);
        let (a3, b3) = (replaced(a2, '>', "&gt;"@), replaced(b2, '>', "&gt;"@));
        replaced_concat(a3, b3, '"', "&quot;"@);
        let (a4, b4) = (replaced(a3, '"', "&quot;"@), replaced(b3, '"', "&quot;"@));
        replaced_concat(a4, b4, '\'', "&apos;"@);
    }
}

/// The status line with the given text and class whose tooltip gives `detail` and the help.
pub open spec fn shown(text: Seq<char>, class: Seq<char>, detail: Seq<char>) -> OutputView {
    OutputView { text, class, tooltip: escaped(detail + "\n\n"@ + CONTROLS@) }
}

/// Builds a status line.
pub fn output(text: &str, class: &'static str, detail: &str) -> (r: Output)
    ensures
        r@ == shown(text@, class@, detail@),
{
    let mut tooltip: String = detail.to_owned();
    tooltip.append("\n\n");
    tooltip.append(CONTROLS);
    Output { text: text.to_owned(), class, tooltip: escape(tooltip.as_str()) }
}

/// The status line of a failure.
pub open spec fn failed(detail: Seq<char>) -> OutputView {
    shown("⚠"@, "error"@, detail)
}

/// The status line of a strip that cannot be reached.
pub open spec fn unreachable_line() -> OutputView {
    shown("\u{f127}"@, "offline"@, "Tapo unreachable or timed out on the local network."@)
}

/// The status line while another request holds the strip.
pub open spec fn busy_line() -> OutputView {
    shown("…"@, "busy"@, "Tapo is processing another request."@)
}

/// Reports a failure.
pub fn failure(detail: &str) -> (r: Output)
    ensures
        r@ == failed(detail@),
{
    output("⚠", "error", detail)
}

/// Reports that the strip cannot be reached.
pub fn offline() -> (r: Output)
    ensures
        r@ == unreachable_line(),
{
    output("\u{f127}", "offline", "Tapo unreachable or timed out on the local network.")
}

/// Reports that another request holds the strip.
pub fn busy() -> (r: Output)
    ensures
        r@ == busy_line(),
{
    output("…", "busy", "Tapo is processing another request.")
}

/// Every tooltip is plain markup.
pub proof fn tooltips_are_plain(text: Seq<char>, class: Seq<char>, detail: Seq<char>)
    ensures
        plain_markup(shown(text, class, detail).tooltip),
{
    escaped_is_plain(detail + "\n\n"@ + CONTROLS@);
}

/// The title of the notification that reports a failure.
pub const NOTIFICATION_TITLE: &'static str = "Tapo control failed";

/// What remains to be done once an action has its status line.
#[derive(Debug)]
pub struct FollowUp {
    /// Whether to print the status line.
    pub print: bool,
    /// The body of the notification to show, if any.
    pub notify: Option<String>,
    /// Whether to have the bar ask for the status anew.
    pub refresh: bool,
}

/// Whether a status line reports that the action failed.
pub open spec fn reports_failure(out: OutputView) -> bool {
    out.class == "error"@ || out.class == "offline"@
}

/// The model of a [`FollowUp`].
pub struct FollowUpView {
    pub print: bool,
    pub notify: Option<Seq<char>>,
    pub refresh: bool,
}

impl View for FollowUp {
    type V = FollowUpView;

    open spec fn view(&self) -> FollowUpView {
        FollowUpView {
            print: self.print,
            notify: match self.notify {
                Some(body) => Some(body@),
                None => None,
            },
            refresh: self.refresh,
        }
    }
}

/// What remains to be done once an action has a status line.
pub open spec fn remaining(action: Action, out: OutputView) -> FollowUpView {
    FollowUpView {
        print: action == Action::Status,
        notify: if action != Action::Status && reports_failure(out) {
            Some(crate::text::first_paragraph(out.tooltip))
        } else {
            None
        },
        refresh: action != Action::Status,
    }
}

/// Works out what remains to be done: the status is printed, a control action refreshes the bar
/// and notifies of a failure by the first paragraph of the tooltip.
pub fn follow_up(action: Action, out: &Output) -> (r: FollowUp)
    ensures
        r@ == remaining(action, out@),
        r.print <==> action == Action::Status,
        r.refresh <==> action != Action::Status,
        r.notify is Some <==> action != Action::Status && reports_failure(out@),
        r.notify matches Some(body) ==> body@ == crate::text::first_paragraph(out@.tooltip),
{
    if action == Action::Status {
        return FollowUp { print: true, notify: None, refresh: false };
    }
    let notify: Option<String> = if same(out.class, "error") || same(out.class, "offline") {
        Some(paragraph(out.tooltip.as_str()).to_owned())
    } else {
        None
    };
    FollowUp { print: false, notify, refresh: true }
}

proof fn escaped_keeps_line_ends(s: Seq<char>)
    requires
        crate::text::single_spaced(s),
    ensures
        crate::text::single_spaced(escaped(s)),
        escaped(s).len() > 0 <==> s.len() > 0,
        s.len() > 0 ==> (escaped(s).last() == '\n' <==> s.last() == '\n'),
    decreases s.len(),
{
    if s.len() > 0 {
        let d = s.drop_last();
        assert(crate::text::single_spaced(d)) by {
            assert forall|i: int, j: int|
                #![trigger d[i], d[j]]
                0 <= i < d.len() - 1 && j == i + 1 implies d[i] != '\n' || d[j] != '\n' by {
                assert(d[i] == s[i] && d[j] == s[j]);
            }
        }
        escaped_keeps_line_ends(d);
        reveal_entities();
        let a = escaped(d);
        let b = entity(s.last());
        let t = a + b;
        assert forall|i: int, j: int|
            #![trigger t[i], t[j]]
            0 <= i < t.len() - 1 && j == i + 1 implies t[i] != '\n' || t[j] != '\n' by {
            if j < a.len() {
                assert(t[i] == a[i] && t[j] == a[j]);
            } else if i < a.len() {
                assert(t[i] == a.last() && t[j] == b[0]);
                assert(s[d.len() - 1] == d.last());
                assert(s[d.len() as int] == s.last());
            } else {
                assert(t[i] == b[i - a.len()] && t[j] == b[j - a.len()]);
            }
        }
    }
}

/// The notification of a failure gives its detail and nothing of the help, as long as the detail
/// neither holds a blank line nor ends a line.
pub proof fn notification_gives_the_detail(text: Seq<char>, class: Seq<char>, detail: Seq<char>)
    requires
        crate::text::single_spaced(detail),
        detail.len() > 0 ==> detail.last() != '\n',
    ensures
        crate::text::first_paragraph(shown(text, class, detail).tooltip) == escaped(detail),
{
    escaped_concat(detail + "\n\n"@, CONTROLS@);
    escaped_concat(detail, "\n\n"@);
    reveal_strlit("\n\n");
    let two = "\n\n"@;
    assert(two.drop_last().drop_last() == Seq::<char>::empty());
    assert(escaped(Seq::<char>::empty()) == Seq::<char>::empty());
    assert(escaped(two.drop_last()) == seq!['\n']);
    assert(escaped(two) == two);
    escaped_keeps_line_ends(detail);
    crate::text::first_paragraph_ends_at_blank_line(escaped(detail), escaped(CONTROLS@));
}

/// In markup the five special characters stand as entities, and every other character as itself.
pub proof fn escaped_characters(c: char)
    ensures
        escaped(seq!['&']) == "&amp;"@,
        escaped(seq!['<']) == "&lt;"@,
        escaped(seq!['>']) == "&gt;"@,
        escaped(seq!['"']) == "&quot;"@,
        escaped(seq!['\'']) == "&apos;"@,
        c != '&' && c != '<' && c != '>' && c != '"' && c != '\'' ==> escaped(seq![c]) == seq![c],
        escaped(Seq::<char>::empty()) == Seq::<char>::empty(),
{
    assert(escaped(Seq::<char>::empty()) == Seq::<char>::empty());
    escaped_front(seq!['&']);
    escaped_front(seq!['<']);
    escaped_front(seq!['>']);
    escaped_front(seq!['"']);
    escaped_front(seq!['\'']);
    escaped_front(seq![c]);
    assert(seq!['&'].drop_first() == Seq::<char>::empty());
    assert(seq!['<'].drop_first() == Seq::<char>::empty());
    assert(seq!['>'].drop_first() == Seq::<char>::empty());
    assert(seq!['"'].drop_first() == Seq::<char>::empty());
    assert(seq!['\''].drop_first() == Seq::<char>::empty());
    assert(seq![c].drop_first() == Seq::<char>::empty());
}

/// A status line has the text and the class it was given, and its tooltip gives the detail in
/// markup, a blank line, and the help in markup, always the same.
pub proof fn status_lines_hold_what_they_are_given(
    text: Seq<char>,
    class: Seq<char>,
    detail: Seq<char>,
)
    ensures
        shown(text, class, detail).text == text,
        shown(text, class, detail).class == class,
        shown(text, class, detail).tooltip == escaped(detail) + "\n\n"@ + escaped(CONTROLS@),
        CONTROLS@
            == "Left: white / 1800K · Middle: 1800K\nRight: on/off · Scroll: brightness ±5%\nColor and brightness controls turn the LED on."@,
{
    escaped_concat(detail + "\n\n"@, CONTROLS@);
    escaped_concat(detail, "\n\n"@);
    reveal_strlit("\n\n");
    let two = "\n\n"@;
    assert(two.drop_last().drop_last() == Seq::<char>::empty());
    assert(escaped(Seq::<char>::empty()) == Seq::<char>::empty());
    assert(escaped(two.drop_last()) == seq!['\n']);
    assert(escaped(two) == two);
}

/// A failure is shown by a warning sign and its own detail, a strip that cannot be reached and one
/// that is busy by signs of their own. Just the first two count as failures.
pub proof fn failures_are_told_apart(detail: Seq<char>, out: OutputView)
    ensures
        failed(detail) == shown("⚠"@, "error"@, detail),
        unreachable_line() == shown(
            "\u{f127}"@,
            "offline"@,
            "Tapo unreachable or timed out on the local network."@,
        ),
        busy_line() == shown("…"@, "busy"@, "Tapo is processing another request."@),
        reports_failure(out) <==> out.class == "error"@ || out.class == "offline"@,
        reports_failure(failed(detail)),
        reports_failure(unreachable_line()),
        !reports_failure(busy_line()),
{
    reveal_strlit("busy");
    reveal_strlit("error");
    reveal_strlit("offline");
    assert("busy"@.len() == 4);
    assert("error"@.len() == 5);
    assert("offline"@.len() == 7);
}

/// The model of a status line is that of its fields.
pub proof fn status_lines_are_their_fields(out: Output)
    ensures
        out@.text == out.text@,
        out@.class == out.class@,
        out@.tooltip == out.tooltip@,
{
}

/// The status is printed, and neither notifies nor refreshes; a control action is not printed, and
/// refreshes the bar. It notifies of a failure, by the detail of that failure, and of nothing else.
pub proof fn actions_are_followed_up(action: Action, out: OutputView, detail: Seq<char>)
    requires
        crate::text::single_spaced(detail),
        detail.len() > 0 ==> detail.last() != '\n',
    ensures
        remaining(Action::Status, out) == (FollowUpView {
            print: true,
            notify: None,
            refresh: false,
        }),
        action != Action::Status ==> {
            &&& !remaining(action, out).print
            &&& remaining(action, out).refresh
            &&& remaining(action, failed(detail)).notify == Some(escaped(detail))
            &&& remaining(action, shown(out.text, "offline"@, detail)).notify == Some(
                escaped(detail),
            )
            &&& remaining(action, out).notify is Some <==> out.class == "error"@ || out.class
                == "offline"@
        },
{
    notification_gives_the_detail("⚠"@, "error"@, detail);
    notification_gives_the_detail(out.text, "offline"@, detail);
}

/// The model of what remains to be done is that of its fields.
pub proof fn follow_ups_are_their_fields(next: FollowUp, body: String)
    ensures
        next@.print == next.print,
        next@.refresh == next.refresh,
        next.notify is None <==> next@.notify is None,
        next.notify == Some(body) ==> next@.notify == Some(body@),
{
}

} // verus!
