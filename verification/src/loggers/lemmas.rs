//! What holds of every record, configuration and filter.

use vstd::prelude::*;

use crate::config::{Config, Level, LevelFilter};
use crate::emission::{
    color_after, color_of, painted, text_of, written, Color, Destination, StepView,
};
use crate::loggers::logging::{
    args_field, emitted, label, level_field, line, location_field, only_if, passes, plain_steps,
    shows, target_field, term_steps, time_field,
};
use crate::record::RecordView;
use crate::text::{clock, decimal};

verus! {

/// The text of two runs of steps, one after the other, is the text of the
/// first followed by the text of the second.
pub proof fn lemma_text_of_concat(a: Seq<StepView>, b: Seq<StepView>)
    ensures
        text_of(a + b) == text_of(a) + text_of(b),
    decreases b.len(),
{
    if b.len() == 0 {
        assert(a + b =~= a);
        assert(text_of(a) + text_of(b) =~= text_of(a));
    } else {
        assert((a + b).drop_last() =~= a + b.drop_last());
        assert((a + b).last() == b.last());
        lemma_text_of_concat(a, b.drop_last());
        let t = match b.last() {
            StepView::Write(t) => t,
            _ => Seq::empty(),
        };
        assert(text_of(a + b) =~= text_of(a) + (text_of(b.drop_last()) + t));
    }
}

/// A single step writes its text if it is a write, and nothing otherwise.
pub proof fn lemma_text_of_single(step: StepView)
    ensures
        text_of(seq![step]) == match step {
            StepView::Write(t) => t,
            _ => Seq::empty(),
        },
{
    assert(seq![step].drop_last() =~= Seq::<StepView>::empty());
    assert(seq![step].last() == step);
    assert(text_of(seq![step].drop_last()) =~= Seq::<char>::empty());
    let t = match step {
        StepView::Write(t) => t,
        _ => Seq::empty(),
    };
    assert(text_of(seq![step]) =~= t);
}

/// On a plain stream the steps of a record write its line.
pub proof fn lemma_plain_steps_write_the_line(c: Config, r: RecordView)
    ensures
        text_of(plain_steps(c, r)) == line(c, r),
{
    let s1 = only_if(shows(c.time, r.level), seq![StepView::Write(time_field(r))]);
    let s2 = only_if(shows(c.level, r.level), seq![StepView::Write(level_field(r))]);
    let s3 = only_if(shows(c.target, r.level), seq![StepView::Write(target_field(r))]);
    let s4 = only_if(shows(c.location, r.level), seq![StepView::Write(location_field(r))]);
    let s5 = seq![StepView::Write(args_field(r))];
    lemma_text_of_single(StepView::Write(time_field(r)));
    lemma_text_of_single(StepView::Write(level_field(r)));
    lemma_text_of_single(StepView::Write(target_field(r)));
    lemma_text_of_single(StepView::Write(location_field(r)));
    lemma_text_of_single(StepView::Write(args_field(r)));
    lemma_text_of_concat(s1, s2);
    lemma_text_of_concat(s1 + s2, s3);
    lemma_text_of_concat(s1 + s2 + s3, s4);
    lemma_text_of_concat(s1 + s2 + s3 + s4, s5);
    assert(text_of(Seq::<StepView>::empty()) =~= Seq::<char>::empty());
    assert(text_of(plain_steps(c, r)) =~= line(c, r));
}

/// On a color terminal the steps of a record write its line: colors, resets
/// and the flush add no text.
pub proof fn lemma_term_steps_write_the_line(c: Config, r: RecordView)
    ensures
        text_of(term_steps(c, r)) == line(c, r),
{
    let fg = seq![StepView::Foreground(color_of(r.level))];
    let lv = seq![StepView::Write(level_field(r))];
    let rs = seq![StepView::Reset];
    let s1 = only_if(shows(c.time, r.level), seq![StepView::Write(time_field(r))]);
    let s2 = only_if(
        shows(c.level, r.level),
        seq![
            StepView::Foreground(color_of(r.level)),
            StepView::Write(level_field(r)),
            StepView::Reset,
        ],
    );
    let s3 = only_if(shows(c.target, r.level), seq![StepView::Write(target_field(r))]);
    let s4 = only_if(shows(c.location, r.level), seq![StepView::Write(location_field(r))]);
    let wr = seq![StepView::Write(args_field(r))];
    let fl = seq![StepView::Flush];
    let s5 = seq![StepView::Write(args_field(r)), StepView::Flush];
    lemma_text_of_single(StepView::Write(time_field(r)));
    lemma_text_of_single(StepView::Foreground(color_of(r.level)));
    lemma_text_of_single(StepView::Write(level_field(r)));
    lemma_text_of_single(StepView::Reset);
    lemma_text_of_single(StepView::Write(target_field(r)));
    lemma_text_of_single(StepView::Write(location_field(r)));
    lemma_text_of_single(StepView::Write(args_field(r)));
    lemma_text_of_single(StepView::Flush);
    assert(fg + lv + rs =~= seq![
        StepView::Foreground(color_of(r.level)),
        StepView::Write(level_field(r)),
        StepView::Reset,
    ]);
    lemma_text_of_concat(fg, lv);
    lemma_text_of_concat(fg + lv, rs);
    assert(text_of(fg + lv + rs) =~= level_field(r));
    assert(wr + fl =~= s5);
    lemma_text_of_concat(wr, fl);
    assert(text_of(s5) =~= args_field(r));
    lemma_text_of_concat(s1, s2);
    lemma_text_of_concat(s1 + s2, s3);
    lemma_text_of_concat(s1 + s2 + s3, s4);
    lemma_text_of_concat(s1 + s2 + s3 + s4, s5);
    assert(text_of(Seq::<StepView>::empty()) =~= Seq::<char>::empty());
    assert(text_of(term_steps(c, r)) =~= line(c, r));
}

/// A record that is less severe than the filter allows is not rendered:
/// the emitter hands back nothing, and so no text reaches either stream.
pub proof fn lemma_held_back_record_writes_nothing(
    filter: LevelFilter,
    c: Config,
    r: RecordView,
    on_terminal: bool,
)
    requires
        !passes(r.level, filter),
    ensures
        emitted(filter, c, r, on_terminal) is None,
        written(emitted(filter, c, r, on_terminal), Destination::Stdout) == Seq::<char>::empty(),
        written(emitted(filter, c, r, on_terminal), Destination::Stderr) == Seq::<char>::empty(),
{
}

/// A record that passes the filter is rendered as its line, on a plain stream
/// and on a terminal alike, and the line reaches one stream only: standard
/// error for an error, standard output for every other severity.
pub proof fn lemma_passing_record_writes_its_line_to_one_stream(
    filter: LevelFilter,
    c: Config,
    r: RecordView,
    on_terminal: bool,
)
    requires
        passes(r.level, filter),
    ensures
        r.level == Level::Error ==> {
            &&& written(emitted(filter, c, r, on_terminal), Destination::Stderr) == line(c, r)
            &&& written(emitted(filter, c, r, on_terminal), Destination::Stdout) == Seq::<
                char,
            >::empty()
        },
        r.level != Level::Error ==> {
            &&& written(emitted(filter, c, r, on_terminal), Destination::Stdout) == line(c, r)
            &&& written(emitted(filter, c, r, on_terminal), Destination::Stderr) == Seq::<
                char,
            >::empty()
        },
{
    lemma_plain_steps_write_the_line(c, r);
    lemma_term_steps_write_the_line(c, r);
}

/// Whether a text holds no line terminator.
pub open spec fn unbroken(t: Seq<char>) -> bool {
    forall|i: int| 0 <= i < t.len() ==> t[i] != '\n'
}

/// Whether a text is one line: it ends in a line terminator and holds no other.
pub open spec fn one_line(t: Seq<char>) -> bool {
    &&& t.len() > 0
    &&& t.last() == '\n'
    &&& unbroken(t.drop_last())
}

/// Whether the texts that a record brings along hold no line terminator:
/// its target, its message and the name of its file.
pub open spec fn single_line(r: RecordView) -> bool {
    &&& unbroken(r.target)
    &&& unbroken(r.args)
    &&& (r.file matches Some(f) ==> unbroken(f))
}

/// A decimal numeral holds no line terminator.
pub proof fn lemma_decimal_unbroken(n: nat)
    ensures
        unbroken(decimal(n)),
    decreases n,
{
    if n >= 10 {
        lemma_decimal_unbroken(n / 10);
    }
}

/// The fields that come before the message hold no line terminator, as long
/// as the texts of the record hold none.
pub proof fn lemma_fields_unbroken(r: RecordView)
    requires
        single_line(r),
    ensures
        unbroken(time_field(r)),
        unbroken(level_field(r)),
        unbroken(target_field(r)),
        unbroken(location_field(r)),
{
    reveal_strlit("[");
    reveal_strlit("] ");
    reveal_strlit(" ");
    reveal_strlit(": ");
    reveal_strlit(":");
    reveal_strlit(" - ");
    reveal_strlit("<unknown>");
    reveal_strlit("ERROR");
    reveal_strlit("WARN");
    reveal_strlit("INFO");
    reveal_strlit("DEBUG");
    reveal_strlit("TRACE");
    assert(unbroken(clock(r.time as nat)));
    assert(unbroken(label(r.level)));
    if let Some(l) = r.line {
        lemma_decimal_unbroken(l as nat);
    }
}

/// A record whose target, message and file name hold no line terminator is
/// rendered as exactly one line: the line ends in a line terminator and
/// holds no other, whatever fields the configuration shows.
pub proof fn lemma_line_is_one_line(c: Config, r: RecordView)
    requires
        single_line(r),
    ensures
        one_line(line(c, r)),
{
    lemma_fields_unbroken(r);
    reveal_strlit("\n");
    let t = line(c, r);
    let head = t.drop_last();
    let f1 = if shows(c.time, r.level) {
        time_field(r)
    } else {
        Seq::empty()
    };
    let f2 = if shows(c.level, r.level) {
        level_field(r)
    } else {
        Seq::empty()
    };
    let f3 = if shows(c.target, r.level) {
        target_field(r)
    } else {
        Seq::empty()
    };
    let f4 = if shows(c.location, r.level) {
        location_field(r)
    } else {
        Seq::empty()
    };
    assert(args_field(r) =~= r.args.push('\n'));
    assert(head =~= f1 + f2 + f3 + f4 + r.args);
    assert(unbroken(f1 + f2 + f3 + f4 + r.args));
}

/// `texts` where `shown` holds, no text otherwise.
pub open spec fn texts_if(shown: bool, texts: Seq<(Option<Color>, Seq<char>)>) -> Seq<
    (Option<Color>, Seq<char>),
> {
    if shown {
        texts
    } else {
        Seq::empty()
    }
}

/// The texts of the line of record `r`, each with the color it is meant to
/// have: the severity field in the color of the severity, every other field
/// and the message in the default color of the terminal.
pub open spec fn colored_line(c: Config, r: RecordView) -> Seq<(Option<Color>, Seq<char>)> {
    texts_if(shows(c.time, r.level), seq![(None, time_field(r))]) + texts_if(
        shows(c.level, r.level),
        seq![(Some(color_of(r.level)), level_field(r))],
    ) + texts_if(shows(c.target, r.level), seq![(None, target_field(r))]) + texts_if(
        shows(c.location, r.level),
        seq![(None, location_field(r))],
    ) + seq![(None, args_field(r))]
}

/// Two runs of steps, one after the other, paint what the first paints and
/// then what the second paints from the color that the first leaves.
pub proof fn lemma_painted_concat(a: Seq<StepView>, b: Seq<StepView>, start: Option<Color>)
    ensures
        color_after(a + b, start) == color_after(b, color_after(a, start)),
        painted(a + b, start) == painted(a, start) + painted(b, color_after(a, start)),
    decreases b.len(),
{
    if b.len() == 0 {
        assert(a + b =~= a);
        assert(painted(a, start) + painted(b, color_after(a, start)) =~= painted(a, start));
    } else {
        assert((a + b).drop_last() =~= a + b.drop_last());
        assert((a + b).last() == b.last());
        lemma_painted_concat(a, b.drop_last(), start);
        assert(painted(a + b, start) =~= painted(a, start) + painted(b, color_after(a, start)));
    }
}

/// What a single step paints, and the color that it leaves.
pub proof fn lemma_painted_single(step: StepView, start: Option<Color>)
    ensures
        color_after(seq![step], start) == match step {
            StepView::Foreground(c) => Some(c),
            StepView::Reset => None,
            _ => start,
        },
        painted(seq![step], start) == match step {
            StepView::Write(t) => seq![(start, t)],
            _ => Seq::empty(),
        },
{
    let one = seq![step];
    assert(one.drop_last() =~= Seq::<StepView>::empty());
    assert(one.last() == step);
    assert(color_after(one.drop_last(), start) == start);
    assert(painted(one.drop_last(), start) =~= Seq::empty());
    match step {
        StepView::Write(t) => {
            assert(painted(one, start) =~= seq![(start, t)]);
        },
        _ => {
            assert(painted(one, start) =~= Seq::empty());
        },
    }
}

/// From the default color, the steps of a record paint the severity field in
/// the color of the severity and all other text in the default color, and
/// they leave the default color behind.
pub proof fn lemma_term_steps_paint_the_line(c: Config, r: RecordView)
    ensures
        painted(term_steps(c, r), None) == colored_line(c, r),
        color_after(term_steps(c, r), None) == None::<Color>,
{
    let none = None::<Color>;
    let hue = color_of(r.level);
    let fg = seq![StepView::Foreground(hue)];
    let lv = seq![StepView::Write(level_field(r))];
    let rs = seq![StepView::Reset];
    let s1 = only_if(shows(c.time, r.level), seq![StepView::Write(time_field(r))]);
    let s2 = only_if(
        shows(c.level, r.level),
        seq![StepView::Foreground(hue), StepView::Write(level_field(r)), StepView::Reset],
    );
    let s3 = only_if(shows(c.target, r.level), seq![StepView::Write(target_field(r))]);
    let s4 = only_if(shows(c.location, r.level), seq![StepView::Write(location_field(r))]);
    let wr = seq![StepView::Write(args_field(r))];
    let fl = seq![StepView::Flush];
    let s5 = seq![StepView::Write(args_field(r)), StepView::Flush];
    let empty = Seq::<StepView>::empty();
    assert(painted(empty, none) =~= Seq::empty());
    assert(color_after(empty, none) == none);

    lemma_painted_single(StepView::Write(time_field(r)), none);
    assert(color_after(s1, none) == none);
    assert(painted(s1, none) == texts_if(shows(c.time, r.level), seq![(none, time_field(r))]));

    lemma_painted_single(StepView::Foreground(hue), none);
    lemma_painted_single(StepView::Write(level_field(r)), Some(hue));
    lemma_painted_single(StepView::Reset, Some(hue));
    assert(fg + lv + rs =~= seq![
        StepView::Foreground(hue),
        StepView::Write(level_field(r)),
        StepView::Reset,
    ]);
    lemma_painted_concat(fg, lv, none);
    lemma_painted_concat(fg + lv, rs, none);
    assert(painted(fg + lv + rs, none) =~= seq![(Some(hue), level_field(r))]);
    assert(color_after(fg + lv + rs, none) == none);
    assert(color_after(s2, none) == none);
    assert(painted(s2, none) == texts_if(
        shows(c.level, r.level),
        seq![(Some(hue), level_field(r))],
    ));

    lemma_painted_single(StepView::Write(target_field(r)), none);
    assert(color_after(s3, none) == none);
    assert(painted(s3, none) == texts_if(shows(c.target, r.level), seq![(none, target_field(r))]));

    lemma_painted_single(StepView::Write(location_field(r)), none);
    assert(color_after(s4, none) == none);
    assert(painted(s4, none) == texts_if(
        shows(c.location, r.level),
        seq![(none, location_field(r))],
    ));

    lemma_painted_single(StepView::Write(args_field(r)), none);
    lemma_painted_single(StepView::Flush, none);
    assert(wr + fl =~= s5);
    lemma_painted_concat(wr, fl, none);
    assert(painted(s5, none) =~= seq![(none, args_field(r))]);
    assert(color_after(s5, none) == none);

    lemma_painted_concat(s1, s2, none);
    lemma_painted_concat(s1 + s2, s3, none);
    lemma_painted_concat(s1 + s2 + s3, s4, none);
    lemma_painted_concat(s1 + s2 + s3 + s4, s5, none);
}

/// Colors do not leak from one record into the next: where two records are
/// rendered on one terminal, one after the other, each field of each record
/// has the color it would have had alone, the messages have the default
/// color, and the default color is in force at the end.
pub proof fn lemma_colors_do_not_leak(c: Config, first: RecordView, second: RecordView)
    ensures
        painted(term_steps(c, first) + term_steps(c, second), None) == colored_line(c, first)
            + colored_line(c, second),
        color_after(term_steps(c, first) + term_steps(c, second), None) == None::<Color>,
{
    lemma_term_steps_paint_the_line(c, first);
    lemma_term_steps_paint_the_line(c, second);
    lemma_painted_concat(term_steps(c, first), term_steps(c, second), None);
}

} // verus!
