use vstd::prelude::*;

verus! {

/// The colour a line of the branch listing is shown in.
#[derive(Debug, Clone, Copy, PartialEq, Eq, Structural)]
pub enum Color {
    Plain,
    Red,
    Blue,
    Green,
}

/// One line of the listing: `indent` spaces, then `text` in `color`.
#[derive(Debug, Clone, PartialEq, Eq)]
pub struct Line {
    pub indent: usize,
    pub text: String,
    pub color: Color,
}

impl View for Line {
    type V = (nat, Seq<char>, Color);

    open spec fn view(&self) -> Self::V {
        (self.indent as nat, self.text@, self.color)
    }
}

/// A changed file of a branch: its path and the diff text of each hunk.
#[derive(Debug, Clone)]
pub struct FileListing {
    pub path: String,
    pub hunks: Vec<String>,
}

/// A virtual branch as the listing shows it.
#[derive(Debug, Clone)]
pub struct BranchListing {
    pub id: String,
    pub name: String,
    pub files: Vec<FileListing>,
}

/// The command that lists the virtual branches.
pub struct Branches {}

pub open spec fn separator() -> Seq<char> {
    seq!['-', '-']
}

/// A hunk: its diff, indented by four and green, between two separators.
pub open spec fn hunk_lines(diff: Seq<char>) -> Seq<(nat, Seq<char>, Color)> {
    seq![(0, separator(), Color::Plain), (4, diff, Color::Green), (0, separator(), Color::Plain)]
}

/// The hunks of a file, one after the other.
pub open spec fn hunks_lines(hunks: Seq<String>) -> Seq<(nat, Seq<char>, Color)>
    decreases hunks.len(),
{
    if hunks.len() == 0 {
        Seq::empty()
    } else {
        hunks_lines(hunks.drop_last()).add(hunk_lines(hunks.last()@))
    }
}

/// A file: its path, indented by two and blue, then its hunks.
pub open spec fn file_lines(f: FileListing) -> Seq<(nat, Seq<char>, Color)> {
    seq![(2, f.path@, Color::Blue)].add(hunks_lines(f.hunks@))
}

/// The files of a branch, one after the other.
pub open spec fn files_lines(files: Seq<FileListing>) -> Seq<(nat, Seq<char>, Color)>
    decreases files.len(),
{
    if files.len() == 0 {
        Seq::empty()
    } else {
        files_lines(files.drop_last()).add(file_lines(files.last()))
    }
}

/// A branch: its id and its name in red, then its files.
pub open spec fn branch_lines(b: BranchListing) -> Seq<(nat, Seq<char>, Color)> {
    seq![(0, b.id@, Color::Red), (0, b.name@, Color::Red)].add(files_lines(b.files@))
}

/// The whole listing: the branches one after the other.
pub open spec fn listing(branches: Seq<BranchListing>) -> Seq<(nat, Seq<char>, Color)>
    decreases branches.len(),
{
    if branches.len() == 0 {
        Seq::empty()
    } else {
        listing(branches.drop_last()).add(branch_lines(branches.last()))
    }
}

pub open spec fn views(lines: Seq<Line>) -> Seq<(nat, Seq<char>, Color)> {
    lines.map_values(|l: Line| l@)
}

fn push_line(out: &mut Vec<Line>, indent: usize, text: String, color: Color)
    ensures
        views(final(out)@) == views(old(out)@).push((indent as nat, text@, color)),
{
    out.push(Line { indent, text, color });
    assert(views(final(out)@) =~= views(old(out)@).push((indent as nat, text@, color)));
}

fn push_separator(out: &mut Vec<Line>)
    ensures
        views(final(out)@) == views(old(out)@).push((0, separator(), Color::Plain)),
{
    proof {
        reveal_strlit("--");
    }
    let sep = "--".to_owned();
    assert(sep@ =~= separator());
    push_line(out, 0, sep, Color::Plain);
}

fn push_file(out: &mut Vec<Line>, f: &FileListing)
    ensures
        views(final(out)@) == views(old(out)@).add(file_lines(*f)),
{
    push_line(out, 2, f.path.clone(), Color::Blue);
    let ghost start = views(out@);
    let mut i: usize = 0;
    while i < f.hunks.len()
        invariant
            i <= f.hunks@.len(),
            start == views(old(out)@).push((2, f.path@, Color::Blue)),
            views(out@) == start.add(hunks_lines(f.hunks@.take(i as int))),
        decreases f.hunks@.len() - i,
    {
        push_separator(out);
        push_line(out, 4, f.hunks[i].clone(), Color::Green);
        push_separator(out);
        proof {
            let next = f.hunks@.take(i + 1);
            assert(next.drop_last() =~= f.hunks@.take(i as int));
            assert(next.last() == f.hunks@[i as int]);
        }
        i = i + 1;
        assert(views(out@) =~= start.add(hunks_lines(f.hunks@.take(i as int))));
    }
    assert(f.hunks@.take(i as int) =~= f.hunks@);
    assert(views(out@) =~= views(old(out)@).add(file_lines(*f)));
}

fn push_branch(out: &mut Vec<Line>, b: &BranchListing)
    ensures
        views(final(out)@) == views(old(out)@).add(branch_lines(*b)),
{
    push_line(out, 0, b.id.clone(), Color::Red);
    push_line(out, 0, b.name.clone(), Color::Red);
    let ghost start = views(out@);
    let mut i: usize = 0;
    while i < b.files.len()
        invariant
            i <= b.files@.len(),
            start == views(old(out)@).push((0, b.id@, Color::Red)).push((0, b.name@, Color::Red)),
            views(out@) == start.add(files_lines(b.files@.take(i as int))),
        decreases b.files@.len() - i,
    {
        push_file(out, &b.files[i]);
        proof {
            let next = b.files@.take(i + 1);
            assert(next.drop_last() =~= b.files@.take(i as int));
            assert(next.last() == b.files@[i as int]);
        }
        i = i + 1;
        assert(views(out@) =~= start.add(files_lines(b.files@.take(i as int))));
    }
    assert(b.files@.take(i as int) =~= b.files@);
    assert(views(out@) =~= views(old(out)@).add(branch_lines(*b)));
}

impl Branches {
    /// The lines that list `branches`: for each branch its id and name, then
    /// for each of its files the path, then each hunk's diff between two
    /// separators.
    pub fn lines(&self, branches: &Vec<BranchListing>) -> (r: Vec<Line>)
        ensures
            views(r@) == listing(branches@),
    {
        let mut out: Vec<Line> = Vec::new();
        let mut i: usize = 0;
        while i < branches.len()
            invariant
                i <= branches@.len(),
                views(out@) == listing(branches@.take(i as int)),
            decreases branches@.len() - i,
        {
            proof {
                let next = branches@.take(i + 1);
                assert(next.drop_last() =~= branches@.take(i as int));
                assert(next.last() == branches@[i as int]);
            }
            push_branch(&mut out, &branches[i]);
            i = i + 1;
        }
        assert(branches@.take(i as int) =~= branches@);
        out
    }
}

} // verus!
