//! Everything one drawing of the candidate window needs, derived from a frame sent by the
//! Server; the renderer's own frame is derived from it in turn by [`RenderData::render_frame`].

use vstd::prelude::*;
use crate::text::{decimal, push_char, push_decimal};
use crate::theme::ColorScheme;

verus! {

/// How a segment of the pinyin line was produced.
#[derive(Clone, Copy, Debug, PartialEq, Eq, Structural)]
pub enum PreeditKind {
    /// Typed by the user.
    Typed,
    /// The rest of a syllable completed by the engine.
    Rest,
    /// Auxiliary code keys.
    Fuma,
    /// A typo the engine corrected.
    Corrected,
}

/// How the renderer draws a segment of the pinyin line.
#[derive(Clone, Copy, Debug, PartialEq, Eq, Structural)]
pub enum PreeditStyle {
    Typed,
    Rest,
    Fuma,
    Struck,
}

/// A segment of the pinyin line.
#[derive(Debug)]
pub struct PreeditSegment {
    pub text: String,
    pub kind: PreeditKind,
}

/// A candidate, as far as the window's own decisions read it.
#[derive(Debug)]
pub struct Candidate {
    pub text: String,
    /// The auxiliary codes of the candidate, filled only while auxiliary codes are typed.
    pub fuma: Option<String>,
}

/// A frame of the candidate window as the Server sends it.
#[derive(Debug)]
pub struct Frame {
    pub preedit: Vec<PreeditSegment>,
    /// Cursor position in the pinyin line, in characters.
    pub cursor: usize,
    pub candidates: Vec<Candidate>,
    /// Highlighted row on the page; `usize::MAX` means none.
    pub highlight: usize,
    /// Current page, from zero.
    pub page: usize,
    pub page_count: usize,
    /// On-screen notice (for example after deleting a candidate).
    pub notice: Option<String>,
    pub color_scheme: ColorScheme,
}

/// The "next key" hint: while only the first auxiliary code is typed, the highlighted
/// candidate's second code with a leading space; none once the pinyin line holds an auxiliary
/// segment, when no codes are typed, or when the highlight is out of range.
pub open spec fn fuma_hint_spec(frame: Frame) -> Option<Seq<char>> {
    if exists|i: int| 0 <= i < frame.preedit.len() && #[trigger] frame.preedit[i].kind == PreeditKind::Fuma {
        None
    } else if frame.highlight < frame.candidates.len() {
        match frame.candidates[frame.highlight as int].fuma {
            Some(codes) => if codes@.len() >= 2 {
                Some(seq![' ', codes@[1]])
            } else {
                None
            },
            None => None,
        }
    } else {
        None
    }
}

/// The hint is the second code of the highlighted candidate, with a leading space, while no
/// auxiliary segment is in the pinyin line; with an auxiliary segment, or with no candidate
/// highlighted, there is none.
pub proof fn lemma_hint_is_second_code_of_highlight(frame: Frame)
    ensures
        (forall|i: int| 0 <= i < frame.preedit.len() ==> frame.preedit[i].kind != PreeditKind::Fuma)
            && frame.highlight < frame.candidates.len() && frame.candidates[frame.highlight as int].fuma is Some
            && frame.candidates[frame.highlight as int].fuma->0@.len() >= 2 ==> fuma_hint_spec(frame) == Some(
            seq![' ', frame.candidates[frame.highlight as int].fuma->0@[1]],
        ),
        (exists|i: int| 0 <= i < frame.preedit.len() && frame.preedit[i].kind == PreeditKind::Fuma)
            ==> fuma_hint_spec(frame) is None,
        frame.highlight >= frame.candidates.len() ==> fuma_hint_spec(frame) is None,
        fuma_hint_spec(frame) matches Some(h) ==> h.len() == 2 && h[0] == ' ',
{
}

/// Only the highlighted candidate matters: two frames with the same pinyin line, the same
/// highlight and the same codes on the highlighted candidate give the same hint, whatever the
/// other candidates hold.
pub proof fn lemma_hint_reads_only_the_highlight(a: Frame, b: Frame)
    requires
        a.preedit.len() == b.preedit.len(),
        forall|i: int| 0 <= i < a.preedit.len() ==> a.preedit[i].kind == b.preedit[i].kind,
        a.highlight == b.highlight,
        (a.highlight < a.candidates.len()) == (b.highlight < b.candidates.len()),
        a.highlight < a.candidates.len() ==> opt_view(a.candidates[a.highlight as int].fuma) == opt_view(
            b.candidates[b.highlight as int].fuma,
        ),
    ensures
        fuma_hint_spec(a) == fuma_hint_spec(b),
{
    if exists|i: int| 0 <= i < a.preedit.len() && #[trigger] a.preedit[i].kind == PreeditKind::Fuma {
        let i = choose|i: int| 0 <= i < a.preedit.len() && #[trigger] a.preedit[i].kind == PreeditKind::Fuma;
        assert(b.preedit[i].kind == PreeditKind::Fuma);
    }
    if exists|i: int| 0 <= i < b.preedit.len() && #[trigger] b.preedit[i].kind == PreeditKind::Fuma {
        let i = choose|i: int| 0 <= i < b.preedit.len() && #[trigger] b.preedit[i].kind == PreeditKind::Fuma;
        assert(a.preedit[i].kind == PreeditKind::Fuma);
    }
}

/// The view of an optional string.
pub open spec fn opt_view(s: Option<String>) -> Option<Seq<char>> {
    match s {
        Some(t) => Some(t@),
        None => None,
    }
}

/// The hint drawn faintly after the pinyin line: the second auxiliary code of the highlighted
/// candidate, only while just the first code has been typed.
pub fn fuma_hint(frame: &Frame) -> (r: Option<String>)
    ensures
        opt_view(r) == fuma_hint_spec(*frame),
{
    let mut i: usize = 0;
    while i < frame.preedit.len()
        invariant
            i <= frame.preedit.len(),
            forall|j: int| 0 <= j < i ==> #[trigger] frame.preedit[j].kind != PreeditKind::Fuma,
        decreases frame.preedit.len() - i,
    {
        if frame.preedit[i].kind == PreeditKind::Fuma {
            return None;
        }
        i = i + 1;
    }
    if frame.highlight >= frame.candidates.len() {
        return None;
    }
    match &frame.candidates[frame.highlight].fuma {
        Some(codes) => {
            let codes = codes.as_str();
            if codes.unicode_len() < 2 {
                return None;
            }
            let code = codes.get_char(1);
            let mut hint = String::new();
            push_char(&mut hint, ' ');
            push_char(&mut hint, code);
            assert(hint@ =~= seq![' ', code]);
            Some(hint)
        },
        None => None,
    }
}

/// The page footer `page/count` (pages from one), only when there is more than one page.
pub open spec fn footer_spec(page: usize, page_count: usize) -> Option<Seq<char>> {
    if page_count > 1 {
        Some(decimal((page + 1) as nat) + seq!['/'] + decimal(page_count as nat))
    } else {
        None
    }
}

/// The page footer: `2/5` on the second of five pages; none with a single page.
pub fn footer(page: usize, page_count: usize) -> (r: Option<String>)
    requires
        page_count > 1 ==> page < usize::MAX,
    ensures
        opt_view(r) == footer_spec(page, page_count),
{
    if page_count > 1 {
        let mut s = String::new();
        push_decimal(&mut s, (page + 1) as u64);
        push_char(&mut s, '/');
        push_decimal(&mut s, page_count as u64);
        assert(s@ =~= decimal((page + 1) as nat) + seq!['/'] + decimal(page_count as nat));
        Some(s)
    } else {
        None
    }
}

fn clone_opt(s: &Option<String>) -> (r: Option<String>)
    ensures
        r == *s,
{
    match s {
        Some(t) => Some(t.clone()),
        None => None,
    }
}

/// One candidate row: the candidate's position on the page and its text. How the renderer
/// numbers, lays out and styles the row is its own business.
#[derive(Debug)]
pub struct CandidateRow {
    pub index: usize,
    pub text: String,
}

/// Row `i` is candidate `i` of the page, at position `i`.
pub open spec fn rows_match(rows: Seq<CandidateRow>, candidates: Seq<Candidate>) -> bool {
    &&& rows.len() == candidates.len()
    &&& forall|i: int| 0 <= i < rows.len() ==> (#[trigger] rows[i]).index == i && rows[i].text == candidates[i].text
}

/// Everything one drawing needs.
#[derive(Debug)]
pub struct RenderData {
    /// Segments of the pinyin line.
    pub preedit: Vec<PreeditSegment>,
    /// Cursor position in the pinyin line, in characters.
    pub cursor: usize,
    /// One row per candidate of the page.
    pub rows: Vec<CandidateRow>,
    /// Highlighted row on the page; `usize::MAX` for none.
    pub highlight: usize,
    /// `page/count`, only with more than one page.
    pub footer: Option<String>,
    /// The faint "next key" hint after the pinyin line.
    pub fuma_hint: Option<String>,
    /// Notice drawn below the pinyin line.
    pub notice: Option<String>,
    pub color_scheme: ColorScheme,
}

/// A segment of the renderer's pinyin line.
#[derive(Debug)]
pub struct RenderSegment {
    pub text: String,
    pub style: PreeditStyle,
}

/// The pinyin line as the renderer takes it.
#[derive(Debug)]
pub struct RenderPreedit {
    pub segments: Vec<RenderSegment>,
    pub cursor: usize,
}

/// The renderer's frame.
#[derive(Debug)]
pub struct RenderFrame {
    pub preedit: Option<RenderPreedit>,
    pub rows: Vec<CandidateRow>,
    /// The sentence line; the candidate window never draws one.
    pub sentence: Option<String>,
    pub highlighted: Option<usize>,
    pub footer: Option<String>,
    /// The notice, drawn right of the pinyin line.
    pub status: Option<String>,
    pub fuma_hint: Option<String>,
}

/// `rows` holds the same rows as `original`.
pub open spec fn rows_same(rows: Seq<CandidateRow>, original: Seq<CandidateRow>) -> bool {
    &&& rows.len() == original.len()
    &&& forall|i: int| 0 <= i < rows.len() ==> (#[trigger] rows[i]).index == original[i].index && rows[i].text
        == original[i].text
}

fn rows_of(candidates: &Vec<Candidate>) -> (r: Vec<CandidateRow>)
    ensures
        rows_match(r@, candidates@),
{
    let mut rows: Vec<CandidateRow> = Vec::new();
    let mut i: usize = 0;
    while i < candidates.len()
        invariant
            i <= candidates.len(),
            rows.len() == i,
            forall|j: int| 0 <= j < i ==> (#[trigger] rows[j]).index == j && rows[j].text == candidates[j].text,
        decreases candidates.len() - i,
    {
        rows.push(CandidateRow { index: i, text: candidates[i].text.clone() });
        i = i + 1;
    }
    rows
}

fn copy_rows(original: &Vec<CandidateRow>) -> (r: Vec<CandidateRow>)
    ensures
        rows_same(r@, original@),
{
    let mut rows: Vec<CandidateRow> = Vec::new();
    let mut i: usize = 0;
    while i < original.len()
        invariant
            i <= original.len(),
            rows.len() == i,
            forall|j: int| 0 <= j < i ==> (#[trigger] rows[j]).index == original[j].index && rows[j].text
                == original[j].text,
        decreases original.len() - i,
    {
        rows.push(CandidateRow { index: original[i].index, text: original[i].text.clone() });
        i = i + 1;
    }
    rows
}

/// The style a segment kind is drawn with; corrected typos are struck through.
pub open spec fn style_of(kind: PreeditKind) -> PreeditStyle {
    match kind {
        PreeditKind::Typed => PreeditStyle::Typed,
        PreeditKind::Rest => PreeditStyle::Rest,
        PreeditKind::Fuma => PreeditStyle::Fuma,
        PreeditKind::Corrected => PreeditStyle::Struck,
    }
}

impl RenderData {
    /// Nothing to draw and nothing highlighted.
    pub fn empty() -> (r: Self)
        ensures
            r.preedit.len() == 0,
            r.cursor == 0,
            r.rows.len() == 0,
            r.highlight == usize::MAX,
            r.footer is None,
            r.fuma_hint is None,
            r.notice is None,
            r.color_scheme == ColorScheme::Zizai,
    {
        RenderData {
            preedit: Vec::new(),
            cursor: 0,
            rows: Vec::new(),
            highlight: usize::MAX,
            footer: None,
            fuma_hint: None,
            notice: None,
            color_scheme: ColorScheme::Zizai,
        }
    }

    /// Takes over `frame`: pinyin segments, cursor, one row per candidate, highlight, footer,
    /// notice, hint and colours.
    pub fn set(&mut self, frame: &Frame)
        requires
            frame.page_count > 1 ==> frame.page < usize::MAX,
        ensures
            final(self).preedit.len() == frame.preedit.len(),
            forall|i: int| 0 <= i < frame.preedit.len() ==> (#[trigger] final(self).preedit[i]).text
                == frame.preedit[i].text && final(self).preedit[i].kind == frame.preedit[i].kind,
            final(self).cursor == frame.cursor,
            rows_match(final(self).rows@, frame.candidates@),
            final(self).highlight == frame.highlight,
            opt_view(final(self).footer) == footer_spec(frame.page, frame.page_count),
            final(self).notice == frame.notice,
            opt_view(final(self).fuma_hint) == fuma_hint_spec(*frame),
            final(self).color_scheme == frame.color_scheme,
    {
        self.color_scheme = frame.color_scheme;
        let mut preedit: Vec<PreeditSegment> = Vec::new();
        let mut i: usize = 0;
        while i < frame.preedit.len()
            invariant
                i <= frame.preedit.len(),
                preedit.len() == i,
                forall|j: int| 0 <= j < i ==> (#[trigger] preedit[j]).text == frame.preedit[j].text
                    && preedit[j].kind == frame.preedit[j].kind,
            decreases frame.preedit.len() - i,
        {
            let segment = &frame.preedit[i];
            preedit.push(PreeditSegment { text: segment.text.clone(), kind: segment.kind });
            i = i + 1;
        }
        self.preedit = preedit;
        self.cursor = frame.cursor;
        self.rows = rows_of(&frame.candidates);
        self.highlight = frame.highlight;
        self.footer = footer(frame.page, frame.page_count);
        self.notice = clone_opt(&frame.notice);
        self.fuma_hint = fuma_hint(frame);
    }

    /// The renderer's frame: no pinyin line when it is empty, each segment in the style of its
    /// kind, no highlight for `usize::MAX`, and the notice as the status text.
    pub fn render_frame(&self) -> (r: RenderFrame)
        ensures
            (self.preedit.len() == 0) == (r.preedit is None),
            r.preedit matches Some(p) ==> p.cursor == self.cursor && p.segments.len() == self.preedit.len()
                && forall|i: int| 0 <= i < self.preedit.len() ==> (#[trigger] p.segments[i]).text
                    == self.preedit[i].text && p.segments[i].style == style_of(self.preedit[i].kind),
            rows_same(r.rows@, self.rows@),
            r.sentence is None,
            r.highlighted == (if self.highlight == usize::MAX { None } else { Some(self.highlight) }),
            r.footer == self.footer,
            r.status == self.notice,
            r.fuma_hint == self.fuma_hint,
    {
        let preedit = if self.preedit.len() == 0 {
            None
        } else {
            let mut segments: Vec<RenderSegment> = Vec::new();
            let mut i: usize = 0;
            while i < self.preedit.len()
                invariant
                    i <= self.preedit.len(),
                    segments.len() == i,
                    forall|j: int| 0 <= j < i ==> (#[trigger] segments[j]).text == self.preedit[j].text
                        && segments[j].style == style_of(self.preedit[j].kind),
                decreases self.preedit.len() - i,
            {
                let segment = &self.preedit[i];
                let style = match segment.kind {
                    PreeditKind::Typed => PreeditStyle::Typed,
                    PreeditKind::Rest => PreeditStyle::Rest,
                    PreeditKind::Fuma => PreeditStyle::Fuma,
                    PreeditKind::Corrected => PreeditStyle::Struck,
                };
                segments.push(RenderSegment { text: segment.text.clone(), style });
                i = i + 1;
            }
            Some(RenderPreedit { segments, cursor: self.cursor })
        };
        RenderFrame {
            preedit,
            rows: copy_rows(&self.rows),
            sentence: None,
            highlighted: if self.highlight != usize::MAX {
                Some(self.highlight)
            } else {
                None
            },
            footer: clone_opt(&self.footer),
            status: clone_opt(&self.notice),
            fuma_hint: clone_opt(&self.fuma_hint),
        }
    }
}

} // verus!
