//! A line diff printed for people: changed lines in colour, with a few unchanged lines of
//! context around each group of changes.
use owo_colors::OwoColorize;
use vstd::prelude::*;

verus! {

/// How much context the diff shows.
pub struct PrettyDiffBuilderConfig {
    /// Unchanged lines shown before each group of changes.
    pub lines_before_diff: u32,
    /// Unchanged lines shown after each group of changes.
    pub lines_after_diff: u32,
    pub print_first_and_last_lines: bool,
}

/// The text that `owo_colors` gives for `s` painted green and bold.
pub uninterp spec fn green_bold(s: Seq<char>) -> Seq<char>;

/// The text that `owo_colors` gives for `s` painted red and bold.
pub uninterp spec fn red_bold(s: Seq<char>) -> Seq<char>;

/// The text that `owo_colors` gives for `s` painted bright black.
pub uninterp spec fn bright_black(s: Seq<char>) -> Seq<char>;

/// Relies on `OwoColorize::green` and `bold`, written out with `to_string`.
#[verifier::external_body]
fn paint_added(s: &str) -> (r: String)
    ensures
        r@ == green_bold(s@),
{
    s.green().bold().to_string()
}

/// Relies on `OwoColorize::red` and `bold`, written out with `to_string`.
#[verifier::external_body]
fn paint_removed(s: &str) -> (r: String)
    ensures
        r@ == red_bold(s@),
{
    s.red().bold().to_string()
}

/// Relies on `OwoColorize::bright_black`, written out with `to_string`.
#[verifier::external_body]
fn paint_context(s: &str) -> (r: String)
    ensures
        r@ == bright_black(s@),
{
    s.bright_black().to_string()
}

/// The role of a printed line.
#[derive(Clone, Copy, Debug, PartialEq, Eq, Structural)]
pub enum LineRole {
    Context,
    Removed,
    Added,
}

/// One printed line: its marker and text, painted for its role, and a line break.
pub open spec fn painted(role: LineRole, line: Seq<char>) -> Seq<char> {
    let text = match role {
        LineRole::Context => bright_black(seq![' '] + line),
        LineRole::Removed => red_bold(seq!['-'] + line),
        LineRole::Added => green_bold(seq!['+'] + line),
    };
    text + seq!['\n']
}

/// The printed form of `lines`, all in one role.
pub open spec fn printed(role: LineRole, lines: Seq<Seq<char>>) -> Seq<char>
    decreases lines.len(),
{
    if lines.len() == 0 {
        Seq::empty()
    } else {
        printed(role, lines.drop_last()) + painted(role, lines.last())
    }
}

pub open spec fn texts(v: Seq<String>) -> Seq<Seq<char>> {
    v.map_values(|s: String| s@)
}

fn print_lines(buffer: &mut String, lines: &Vec<String>, lo: usize, hi: usize, role: LineRole)
    requires
        lo <= hi <= lines@.len(),
    ensures
        final(buffer)@ == old(buffer)@ + printed(role, texts(lines@).subrange(lo as int, hi as int)),
{
    let ghost start = buffer@;
    let mut i: usize = lo;
    assert(texts(lines@).subrange(lo as int, lo as int) =~= Seq::<Seq<char>>::empty());
    while i < hi
        invariant
            lo <= i <= hi <= lines@.len(),
            buffer@ == start + printed(role, texts(lines@).subrange(lo as int, i as int)),
        decreases hi - i,
    {
        let mut line = match role {
            LineRole::Context => String::from_str(" "),
            LineRole::Removed => String::from_str("-"),
            LineRole::Added => String::from_str("+"),
        };
        line.append(lines[i].as_str());
        let colored = match role {
            LineRole::Context => paint_context(line.as_str()),
            LineRole::Removed => paint_removed(line.as_str()),
            LineRole::Added => paint_added(line.as_str()),
        };
        proof {
            reveal_strlit(" ");
            reveal_strlit("-");
            reveal_strlit("+");
            reveal_strlit("\n");
            assert(" "@ =~= seq![' ']);
            assert("-"@ =~= seq!['-']);
            assert("+"@ =~= seq!['+']);
            assert("\n"@ =~= seq!['\n']);
            assert(colored@ + "\n"@ == painted(role, lines@[i as int]@));
        }
        let ghost before_append = buffer@;
        buffer.append(colored.as_str());
        buffer.append("\n");
        proof {
            let t = texts(lines@);
            assert(t.subrange(lo as int, i + 1).last() == t[i as int]);
            assert(buffer@ =~= before_append + (colored@ + "\n"@));
            assert(t.subrange(lo as int, i + 1).drop_last() =~= t.subrange(lo as int, i as int));
            assert(t[i as int] == lines@[i as int]@);
            assert(buffer@ =~= start + printed(role, t.subrange(lo as int, i + 1)));
        }
        i = i + 1;
    }
}

/// The state of a diff being printed: the position in the old text, the position in the new
/// text that matches it, the extent of the group of changes being collected, the text of that
/// group, and the text finished so far.
pub struct DiffModel {
    pub pos: int,
    pub after_pos: int,
    pub before_hunk_start: int,
    pub after_hunk_start: int,
    pub before_hunk_len: int,
    pub after_hunk_len: int,
    pub buffer: Seq<char>,
    pub dst: Seq<char>,
}

/// The group of changes being collected is written out, with up to `after` unchanged lines
/// following it; nothing happens while no change was collected.
pub open spec fn flushed(m: DiffModel, before: Seq<Seq<char>>, after: int) -> DiffModel {
    if m.before_hunk_len == 0 && m.after_hunk_len == 0 {
        m
    } else {
        let end = if m.pos + after < before.len() {
            m.pos + after
        } else {
            before.len() as int
        };
        DiffModel {
            pos: end,
            before_hunk_len: 0,
            after_hunk_len: 0,
            buffer: Seq::empty(),
            dst: m.dst + m.buffer + printed(LineRole::Context, before.subrange(m.pos, end)),
            ..m
        }
    }
}

/// The lines `before[bs..be]` were replaced by `after_lines[a_s..ae]`. When more than
/// `lines_before` unchanged lines separate this change from the last one, the group collected
/// so far is written out and a new group starts `lines_before` lines ahead of the change.
/// The unchanged lines up to the change, the removed lines and the added lines are then
/// added to the group.
pub open spec fn changed(
    m: DiffModel,
    before: Seq<Seq<char>>,
    after_lines: Seq<Seq<char>>,
    lines_before: int,
    lines_after: int,
    bs: int,
    be: int,
    a_s: int,
    ae: int,
) -> DiffModel {
    let m1 = if bs - m.pos > lines_before {
        let f = flushed(m, before, lines_after);
        DiffModel {
            pos: bs - lines_before,
            after_pos: a_s - lines_before,
            before_hunk_start: bs - lines_before,
            after_hunk_start: a_s - lines_before,
            ..f
        }
    } else {
        m
    };
    DiffModel {
        pos: be,
        after_pos: ae,
        before_hunk_len: m1.before_hunk_len + (bs - m1.pos) + (be - bs),
        after_hunk_len: m1.after_hunk_len + (bs - m1.pos) + (ae - a_s),
        buffer: m1.buffer + printed(LineRole::Context, before.subrange(m1.pos, bs)) + printed(
            LineRole::Removed,
            before.subrange(bs, be),
        ) + printed(LineRole::Added, after_lines.subrange(a_s, ae)),
        ..m1
    }
}

/// Builds the printed diff from the changes that a diff algorithm reports, in order.
pub struct PrettyDiffBuilder {
    before: Vec<String>,
    after: Vec<String>,
    lines_before_diff: u32,
    lines_after_diff: u32,
    pos: u32,
    after_pos: u32,
    before_hunk_start: u32,
    after_hunk_start: u32,
    before_hunk_len: u32,
    after_hunk_len: u32,
    buffer: String,
    dst: String,
}

impl PrettyDiffBuilder {
    pub closed spec fn model(&self) -> DiffModel {
        DiffModel {
            pos: self.pos as int,
            after_pos: self.after_pos as int,
            before_hunk_start: self.before_hunk_start as int,
            after_hunk_start: self.after_hunk_start as int,
            before_hunk_len: self.before_hunk_len as int,
            after_hunk_len: self.after_hunk_len as int,
            buffer: self.buffer@,
            dst: self.dst@,
        }
    }

    pub closed spec fn spec_before(&self) -> Seq<Seq<char>> {
        texts(self.before@)
    }

    pub closed spec fn spec_after(&self) -> Seq<Seq<char>> {
        texts(self.after@)
    }

    pub closed spec fn spec_lines_before(&self) -> int {
        self.lines_before_diff as int
    }

    pub closed spec fn spec_lines_after(&self) -> int {
        self.lines_after_diff as int
    }

    /// Positions stay within the texts, and each group's extent ends at the positions.
    pub closed spec fn wf(&self) -> bool {
        &&& self.before@.len() <= u32::MAX
        &&& self.after@.len() <= u32::MAX
        &&& self.pos <= self.before@.len()
        &&& self.after_pos <= self.after@.len()
        &&& self.before_hunk_start + self.before_hunk_len == self.pos
        &&& self.after_hunk_start + self.after_hunk_len == self.after_pos
    }

    /// A builder for the diff of the lines `before` against the lines `after`.
    pub fn new(before: Vec<String>, after: Vec<String>, config: PrettyDiffBuilderConfig) -> (r:
        PrettyDiffBuilder)
        requires
            before@.len() <= u32::MAX,
            after@.len() <= u32::MAX,
        ensures
            r.wf(),
            r.spec_before() == texts(before@),
            r.spec_after() == texts(after@),
            r.spec_lines_before() == config.lines_before_diff,
            r.spec_lines_after() == config.lines_after_diff,
            r.model() == (DiffModel {
                pos: 0,
                after_pos: 0,
                before_hunk_start: 0,
                after_hunk_start: 0,
                before_hunk_len: 0,
                after_hunk_len: 0,
                buffer: Seq::empty(),
                dst: Seq::empty(),
            }),
    {
        PrettyDiffBuilder {
            before,
            after,
            lines_before_diff: config.lines_before_diff,
            lines_after_diff: config.lines_after_diff,
            pos: 0,
            after_pos: 0,
            before_hunk_start: 0,
            after_hunk_start: 0,
            before_hunk_len: 0,
            after_hunk_len: 0,
            buffer: String::new(),
            dst: String::new(),
        }
    }
}

impl PrettyDiffBuilder {
    fn flush(&mut self)
        requires
            old(self).before@.len() <= u32::MAX,
            old(self).pos <= old(self).before@.len(),
        ensures
            final(self).model() == flushed(
                old(self).model(),
                old(self).spec_before(),
                old(self).spec_lines_after(),
            ),
            final(self).before == old(self).before,
            final(self).after == old(self).after,
            final(self).lines_before_diff == old(self).lines_before_diff,
            final(self).lines_after_diff == old(self).lines_after_diff,
    {
        if self.before_hunk_len == 0 && self.after_hunk_len == 0 {
            return;
        }
        let total = self.before.len() as u32;
        let end = if (self.pos as u64) + (self.lines_after_diff as u64) < total as u64 {
            self.pos + self.lines_after_diff
        } else {
            total
        };
        let ghost old_dst = self.dst@;
        let ghost old_buffer = self.buffer@;
        print_lines(&mut self.buffer, &self.before, self.pos as usize, end as usize, LineRole::Context);
        self.dst.append(self.buffer.as_str());
        self.buffer = String::new();
        self.pos = end;
        self.before_hunk_len = 0;
        self.after_hunk_len = 0;
        assert(self.dst@ =~= old_dst + old_buffer + printed(
            LineRole::Context,
            texts(self.before@).subrange(old(self).pos as int, end as int),
        ));
    }

    /// The positions reached in the old and the new text.
    pub fn positions(&self) -> (r: (u32, u32))
        ensures
            r.0 == self.model().pos,
            r.1 == self.model().after_pos,
    {
        (self.pos, self.after_pos)
    }

    /// The numbers of lines of the old and the new text.
    pub fn line_counts(&self) -> (r: (usize, usize))
        ensures
            r.0 == self.spec_before().len(),
            r.1 == self.spec_after().len(),
    {
        (self.before.len(), self.after.len())
    }

    /// Takes the change of the lines `before[bs..be]` into `after[a_s..ae]`; see `changed`.
    /// Changes come in order, and the unchanged lines between two changes are as many in
    /// either text.
    pub fn process_change(&mut self, bs: u32, be: u32, a_s: u32, ae: u32)
        requires
            old(self).wf(),
            old(self).model().pos <= bs <= be <= old(self).spec_before().len(),
            old(self).model().after_pos <= a_s <= ae <= old(self).spec_after().len(),
            a_s - old(self).model().after_pos == bs - old(self).model().pos,
        ensures
            final(self).wf(),
            final(self).spec_before() == old(self).spec_before(),
            final(self).spec_after() == old(self).spec_after(),
            final(self).spec_lines_before() == old(self).spec_lines_before(),
            final(self).spec_lines_after() == old(self).spec_lines_after(),
            final(self).model() == changed(
                old(self).model(),
                old(self).spec_before(),
                old(self).spec_after(),
                old(self).spec_lines_before(),
                old(self).spec_lines_after(),
                bs as int,
                be as int,
                a_s as int,
                ae as int,
            ),
    {
        if bs - self.pos > self.lines_before_diff {
            self.flush();
            self.pos = bs - self.lines_before_diff;
            self.after_pos = a_s - self.lines_before_diff;
            self.before_hunk_start = self.pos;
            self.after_hunk_start = self.after_pos;
        }
        let len = bs - self.pos;
        print_lines(&mut self.buffer, &self.before, self.pos as usize, bs as usize, LineRole::Context);
        print_lines(&mut self.buffer, &self.before, bs as usize, be as usize, LineRole::Removed);
        print_lines(&mut self.buffer, &self.after, a_s as usize, ae as usize, LineRole::Added);
        self.before_hunk_len = self.before_hunk_len + len + (be - bs);
        self.after_hunk_len = self.after_hunk_len + len + (ae - a_s);
        self.pos = be;
        self.after_pos = ae;
    }

    /// The printed diff, with the last group of changes written out.
    pub fn finish(self) -> (r: String)
        requires
            self.wf(),
        ensures
            r@ == flushed(self.model(), self.spec_before(), self.spec_lines_after()).dst,
    {
        let mut this = self;
        this.flush();
        this.dst
    }
}

} // verus!
