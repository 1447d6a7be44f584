//! The status line: what it holds, how it is put together and how it is
//! painted.

use crate::git_info::{GitInfo, GitInfoView, RepoSnapshot};
use crate::input::{Input, TranscriptEntry};
use crate::path::{display_dir, file_name, lemma_unnamed_path, names_nothing_at};
use crate::style::{paint, painted, Style};
use crate::text::{decimal, decimal_string};
use crate::token_count::{token_text, transcript_usage, TokenCount};
use vstd::prelude::*;

verus! {

/// What one line shows.
pub struct StatusLine {
    dir: String,
    git_info: GitInfo,
    total_tokens: TokenCount,
    model: String,
}

/// A [`StatusLine`] as mathematics sees it.
pub struct StatusLineView {
    pub dir: Seq<char>,
    pub git_info: GitInfoView,
    pub total_tokens: nat,
    pub model: Seq<char>,
}

impl View for StatusLine {
    type V = StatusLineView;

    closed spec fn view(&self) -> StatusLineView {
        StatusLineView {
            dir: self.dir@,
            git_info: self.git_info@,
            total_tokens: self.total_tokens@,
            model: self.model@,
        }
    }
}

/// One piece of the line: a text and the style to show it in.
#[derive(Debug)]
pub struct Segment {
    pub style: Style,
    pub text: String,
}

impl View for Segment {
    type V = (Style, Seq<char>);

    open spec fn view(&self) -> (Style, Seq<char>) {
        (self.style, self.text@)
    }
}

/// The part of the compaction threshold that `tokens` come to, in percent:
/// rounded to the nearest integer in exact arithmetic, a half going up, and
/// never more than 100.
pub open spec fn percent(tokens: nat) -> nat {
    let threshold = StatusLine::COMPACTION_THRESHOLD as nat;
    let nearest = (2 * (100 * tokens) + threshold) / (2 * threshold);
    if nearest > 100 {
        100
    } else {
        nearest
    }
}

/// Below the threshold no integer is nearer to the hundredfold of `tokens`
/// over the threshold than [`percent`]: the two are at most a half apart,
/// and exactly a half apart only where the percentage is the greater one.
pub proof fn lemma_percent_is_nearest(tokens: nat)
    requires
        tokens < StatusLine::COMPACTION_THRESHOLD,
    ensures
        2 * (100 * tokens) - StatusLine::COMPACTION_THRESHOLD < 2 * (percent(tokens)
            * StatusLine::COMPACTION_THRESHOLD) <= 2 * (100 * tokens)
            + StatusLine::COMPACTION_THRESHOLD,
{
    let threshold = StatusLine::COMPACTION_THRESHOLD as int;
    let doubled = 2 * (100 * tokens) + threshold;
    let nearest = doubled / (2 * threshold);
    assert(doubled == (2 * threshold) * nearest + doubled % (2 * threshold)) by {
        vstd::arithmetic::div_mod::lemma_fundamental_div_mod(doubled, 2 * threshold);
    }
    assert(0 <= doubled % (2 * threshold) < 2 * threshold) by {
        vstd::arithmetic::div_mod::lemma_mod_bound(doubled, 2 * threshold);
    }
    assert((2 * threshold) * nearest == 2 * (nearest * threshold)) by (nonlinear_arith);
    assert(nearest <= 100) by (nonlinear_arith)
        requires
            (2 * threshold) * nearest <= doubled,
            doubled < 202 * threshold,
            threshold > 0,
    ;
    assert(percent(tokens) == nearest);
}

/// The percentage never passes 100, and is 100 from the threshold on.
pub proof fn lemma_percent_capped(tokens: nat)
    ensures
        percent(tokens) <= 100,
        tokens >= StatusLine::COMPACTION_THRESHOLD ==> percent(tokens) == 100,
{
    let threshold = StatusLine::COMPACTION_THRESHOLD as nat;
    if tokens >= threshold {
        assert((2 * (100 * tokens) + threshold) / (2 * threshold) >= 100) by (nonlinear_arith)
            requires
                tokens >= threshold,
                threshold > 0,
        ;
    }
}

/// The style of the branch name: yellow where something is staged, else red
/// where something is modified or untracked, else green.
pub open spec fn branch_style(git: GitInfoView) -> Style {
    if git.files_staged > 0 {
        Style::DimYellow
    } else if git.files_modified > 0 || git.files_untracked > 0 {
        Style::DimRed
    } else {
        Style::DimGreen
    }
}

/// The style of the percentage: red from 90 on, else yellow from 70 on, else
/// green.
pub open spec fn percent_style(pct: nat) -> Style {
    if pct >= 90 {
        Style::DimRed
    } else if pct >= 70 {
        Style::DimYellow
    } else {
        Style::DimGreen
    }
}

/// The files that wait in the working tree, in words. Only a count that is
/// not 0 is named.
pub open spec fn file_clause(modified: nat, untracked: nat) -> Seq<char> {
    if modified == 0 && untracked == 0 {
        Seq::empty()
    } else if untracked == 0 {
        decimal(modified) + " modified, "@
    } else if modified == 0 {
        decimal(untracked) + " untracked, "@
    } else {
        decimal(modified) + " modified, "@ + decimal(untracked) + " untracked, "@
    }
}

/// The separator between the four fields of the line.
pub open spec fn separator() -> (Style, Seq<char>) {
    (Style::DimWhite, " \u{b7} "@)
}

/// Directory, `@` and branch.
pub open spec fn place_segments(line: StatusLineView) -> Seq<(Style, Seq<char>)> {
    seq![
        (Style::DimWhite, line.dir),
        (Style::DimWhite, "@"@),
        (branch_style(line.git_info), line.git_info.branch),
    ]
}

/// The file clause, if there is one to show, then the lines added and
/// removed.
pub open spec fn change_segments(git: GitInfoView) -> Seq<(Style, Seq<char>)> {
    let files = if git.files_modified == 0 && git.files_untracked == 0 {
        Seq::<(Style, Seq<char>)>::empty()
    } else {
        seq![(Style::Dim, file_clause(git.files_modified, git.files_untracked))]
    };
    files + seq![
        (Style::DimGreen, "+"@ + decimal(git.lines_added)),
        (Style::Plain, " "@),
        (Style::DimRed, "-"@ + decimal(git.lines_removed)),
        (Style::DimWhite, " lines"@),
    ]
}

/// The token count, and in brackets the percentage in its own style.
pub open spec fn token_segments(tokens: nat) -> Seq<(Style, Seq<char>)> {
    seq![
        (Style::DimWhite, token_text(tokens) + " "@),
        (Style::DimWhite, "("@),
        (percent_style(percent(tokens)), decimal(percent(tokens)) + "%"@),
        (Style::DimWhite, ")"@),
    ]
}

/// The pieces of a line, from left to right: place, changes, tokens and
/// model, with a separator between one field and the next.
pub open spec fn line_segments(line: StatusLineView) -> Seq<(Style, Seq<char>)> {
    place_segments(line) + seq![separator()] + change_segments(line.git_info) + seq![separator()]
        + token_segments(line.total_tokens) + seq![separator()] + seq![
        (Style::DimWhite, line.model),
    ]
}

/// The pieces painted and put one after the other.
pub open spec fn rendered(segments: Seq<(Style, Seq<char>)>) -> Seq<char>
    decreases segments.len(),
{
    if segments.len() == 0 {
        Seq::empty()
    } else {
        rendered(segments.drop_last()) + painted(segments.last().0, segments.last().1)
    }
}

/// Picks the style of the branch name.
pub fn branch_style_of(git: &GitInfo) -> (r: Style)
    ensures
        r == branch_style(git@),
{
    if git.files_staged > 0 {
        Style::DimYellow
    } else if git.files_modified > 0 || git.files_untracked > 0 {
        Style::DimRed
    } else {
        Style::DimGreen
    }
}

/// Picks the style of a percentage.
pub fn percent_style_of(pct: u32) -> (r: Style)
    ensures
        r == percent_style(pct as nat),
{
    if pct >= 90 {
        Style::DimRed
    } else if pct >= 70 {
        Style::DimYellow
    } else {
        Style::DimGreen
    }
}

fn segment(style: Style, text: &str) -> (r: Segment)
    ensures
        r@ == (style, text@),
{
    Segment { style, text: String::from_str(text) }
}

fn separator_segment() -> (r: Segment)
    ensures
        r@ == separator(),
{
    segment(Style::DimWhite, " \u{b7} ")
}

fn signed_count(sign: &str, count: usize) -> (r: String)
    ensures
        r@ == sign@ + decimal(count as nat),
{
    let mut out = String::from_str(sign);
    out.append(decimal_string(count as u64).as_str());
    out
}

fn file_clause_text(modified: usize, untracked: usize) -> (r: String)
    ensures
        r@ == file_clause(modified as nat, untracked as nat),
{
    let mut out = String::new();
    if modified != 0 {
        out.append(decimal_string(modified as u64).as_str());
        out.append(" modified, ");
    }
    if untracked != 0 {
        out.append(decimal_string(untracked as u64).as_str());
        out.append(" untracked, ");
    }
    assert(out@ =~= file_clause(modified as nat, untracked as nat));
    out
}

impl StatusLine {
    /// The token count at which a session is compacted: eight tenths of
    /// 200000.
    pub const COMPACTION_THRESHOLD: u64 = 160_000;

    pub fn new(dir: String, git_info: GitInfo, total_tokens: TokenCount, model: String) -> (r: Self)
        ensures
            r@ == (StatusLineView {
                dir: dir@,
                git_info: git_info@,
                total_tokens: total_tokens@,
                model: model@,
            }),
    {
        StatusLine { dir, git_info, total_tokens, model }
    }

    /// The inputs that [`Self::compose`] can count: see
    /// [`GitInfo::countable`] and [`TokenCount::summable`].
    pub open spec fn composable(
        probe: Option<RepoSnapshot>,
        transcript: Option<Vec<Option<TranscriptEntry>>>,
    ) -> bool {
        GitInfo::countable(probe) && TokenCount::summable(transcript)
    }

    /// Tests [`Self::composable`].
    pub fn is_composable(
        probe: &Option<RepoSnapshot>,
        transcript: &Option<Vec<Option<TranscriptEntry>>>,
    ) -> (r: bool)
        ensures
            r == Self::composable(*probe, *transcript),
    {
        GitInfo::is_countable(probe) && TokenCount::is_summable(transcript)
    }

    /// Puts a line together from the payload, from what was read of the
    /// repository around [`Input::current_dir`] (`None` where no repository
    /// encloses it), and from what was read of the transcript (`None` where
    /// the payload names no transcript or it could not be read; see
    /// [`TokenCount::aggregate`]).
    ///
    /// The directory is shown by its name, or as `.` where it has none. A
    /// repository that gives no state shows as unknown, a missing
    /// transcript as 0 tokens, a missing model name as `Unknown`.
    pub fn compose(
        input: Input,
        probe: Option<RepoSnapshot>,
        transcript: Option<Vec<Option<TranscriptEntry>>>,
    ) -> (r: Self)
        requires
            Self::composable(probe, transcript),
        ensures
            r@ == (StatusLineView {
                dir: display_dir(input.working_dir()),
                git_info: match GitInfo::summary(probe) {
                    Ok(view) => view,
                    Err(_) => GitInfoView::unknown(),
                },
                total_tokens: transcript_usage(transcript),
                model: input.model_label(),
            }),
            input.names_no_dir() ==> r@.dir == "."@,
            probe is None ==> r@.git_info == GitInfoView::unknown(),
            transcript is None ==> r@.total_tokens == 0,
    {
        proof {
            reveal_strlit(".");
            if input.names_no_dir() {
                lemma_unnamed_path("."@);
            }
        }
        let current_dir_full = input.current_dir();
        let dir = match file_name(current_dir_full.as_str()) {
            Some(name) => name,
            None => String::from_str("."),
        };
        let git_info = GitInfo::extract(probe);
        let total_tokens = TokenCount::aggregate(transcript);
        let model = input.model_name();
        StatusLine { dir, git_info, total_tokens, model }
    }

    pub fn dir(&self) -> (r: &str)
        ensures
            r@ == self@.dir,
    {
        self.dir.as_str()
    }

    pub fn git_info(&self) -> (r: &GitInfo)
        ensures
            r@ == self@.git_info,
    {
        &self.git_info
    }

    pub fn total_tokens(&self) -> (r: &TokenCount)
        ensures
            r@ == self@.total_tokens,
    {
        &self.total_tokens
    }

    pub fn model(&self) -> (r: &str)
        ensures
            r@ == self@.model,
    {
        self.model.as_str()
    }

    /// The part of the compaction threshold that is used, in percent.
    pub fn percent_used(&self) -> (r: u32)
        ensures
            r == percent(self@.total_tokens),
            r <= 100,
            self@.total_tokens >= Self::COMPACTION_THRESHOLD ==> r == 100,
    {
        let tokens: u64 = *self.total_tokens;
        proof {
            lemma_percent_capped(tokens as nat);
        }
        if tokens >= Self::COMPACTION_THRESHOLD {
            100
        } else {
            let nearest = (2 * (100 * tokens) + Self::COMPACTION_THRESHOLD) / (2
                * Self::COMPACTION_THRESHOLD);
            nearest as u32
        }
    }

    /// The pieces of the line, from left to right.
    pub fn segments(&self) -> (r: Vec<Segment>)
        ensures
            r@.map_values(|s: Segment| s@) == line_segments(self@),
    {
        let git = &self.git_info;
        let pct = self.percent_used();
        let mut out: Vec<Segment> = Vec::new();

        out.push(segment(Style::DimWhite, self.dir.as_str()));
        out.push(segment(Style::DimWhite, "@"));
        out.push(segment(branch_style_of(git), git.branch.as_str()));
        out.push(separator_segment());

        if git.files_modified != 0 || git.files_untracked != 0 {
            let text = file_clause_text(git.files_modified, git.files_untracked);
            out.push(Segment { style: Style::Dim, text });
        }
        out.push(Segment { style: Style::DimGreen, text: signed_count("+", git.lines_added) });
        out.push(segment(Style::Plain, " "));
        out.push(Segment { style: Style::DimRed, text: signed_count("-", git.lines_removed) });
        out.push(segment(Style::DimWhite, " lines"));
        out.push(separator_segment());

        let mut tokens = self.total_tokens.to_string();
        tokens.append(" ");
        out.push(Segment { style: Style::DimWhite, text: tokens });
        out.push(segment(Style::DimWhite, "("));
        let mut share = decimal_string(pct as u64);
        share.append("%");
        out.push(Segment { style: percent_style_of(pct), text: share });
        out.push(segment(Style::DimWhite, ")"));
        out.push(separator_segment());

        out.push(segment(Style::DimWhite, self.model.as_str()));
        assert(out@.map_values(|s: Segment| s@) =~= line_segments(self@));
        out
    }

    /// The line as it is printed: every piece painted, one after the other.
    pub fn render(&self) -> (r: String)
        ensures
            r@ == rendered(line_segments(self@)),
    {
        let segments = self.segments();
        let ghost pieces = segments@.map_values(|s: Segment| s@);
        let mut out = String::new();
        let mut i: usize = 0;
        while i < segments.len()
            invariant
                i <= segments@.len(),
                pieces == segments@.map_values(|s: Segment| s@),
                out@ == rendered(pieces.take(i as int)),
            decreases segments@.len() - i,
        {
            let piece = &segments[i];
            proof {
                assert(pieces.take(i + 1).drop_last() =~= pieces.take(i as int));
            }
            out.append(paint(piece.style, piece.text.as_str()).as_str());
            i = i + 1;
        }
        assert(pieces.take(i as int) =~= pieces);
        out
    }
}

} // verus!
