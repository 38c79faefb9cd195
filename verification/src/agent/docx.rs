//! Word documents: the document model built from Markdown text and from the
//! JSON element list that the agent writes.
use vstd::prelude::*;
use crate::text::{chars_of, string_of};
use pulldown_cmark::{Event, Parser, Tag, TagEnd};

verus! {

/// One Markdown event, as the document builders read it.
pub enum MdEvent {
    StartParagraph,
    /// Start of a heading of level 1 to 6.
    StartHeading(u8),
    StartStrong,
    StartEmphasis,
    StartItem,
    StartOther,
    EndParagraph,
    EndHeading,
    EndItem,
    EndStrong,
    EndEmphasis,
    EndOther,
    Text(String),
    SoftBreak,
    HardBreak,
    Other,
}

/// One run of a paragraph.
pub enum RunSpec {
    /// Text with its emphasis.
    Text { text: String, bold: bool, italic: bool },
    /// A line break inside the paragraph.
    Break,
    /// A picture, with the size asked for, if any.
    Image { data: Vec<u8>, size: Option<(u32, u32)> },
}

/// A paragraph: its runs, its style, and whether it is centred.
pub struct ParagraphSpec {
    pub runs: Vec<RunSpec>,
    pub style: Option<String>,
    pub centered: bool,
}

/// A block of the document body.
pub enum Block {
    Paragraph(ParagraphSpec),
    /// A table: rows of cells, each cell one paragraph.
    Table(Vec<Vec<ParagraphSpec>>),
}

/// The model of a run.
pub enum RunView {
    Text(Seq<char>, bool, bool),
    Break,
    Image(Seq<u8>, Option<(u32, u32)>),
}

/// The model of a paragraph.
pub struct ParaView {
    pub runs: Seq<RunView>,
    pub style: Option<Seq<char>>,
    pub centered: bool,
}

/// The model of a block.
pub enum BlockView {
    Paragraph(ParaView),
    Table(Seq<Seq<ParaView>>),
}

impl View for RunSpec {
    type V = RunView;

    open spec fn view(&self) -> RunView {
        match self {
            RunSpec::Text { text, bold, italic } => RunView::Text(text@, *bold, *italic),
            RunSpec::Break => RunView::Break,
            RunSpec::Image { data, size } => RunView::Image(data@, *size),
        }
    }
}

/// The models of a list of runs.
pub open spec fn run_views(runs: Seq<RunSpec>) -> Seq<RunView> {
    runs.map_values(|r: RunSpec| r@)
}

impl View for ParagraphSpec {
    type V = ParaView;

    open spec fn view(&self) -> ParaView {
        ParaView {
            runs: run_views(self.runs@),
            style: match self.style {
                Some(s) => Some(s@),
                None => None,
            },
            centered: self.centered,
        }
    }
}

/// The models of a row of cells.
pub open spec fn cell_views(cells: Seq<ParagraphSpec>) -> Seq<ParaView> {
    cells.map_values(|p: ParagraphSpec| p@)
}

impl View for Block {
    type V = BlockView;

    open spec fn view(&self) -> BlockView {
        match self {
            Block::Paragraph(p) => BlockView::Paragraph(p@),
            Block::Table(rows) => BlockView::Table(rows@.map_values(|r: Vec<ParagraphSpec>| cell_views(r@))),
        }
    }
}

/// The models of a list of blocks.
pub open spec fn block_views(blocks: Seq<Block>) -> Seq<BlockView> {
    blocks.map_values(|b: Block| b@)
}

/// The runs written for inline Markdown, with the bold and italic state
/// after the events: strong and emphasis switch bold and italic on and
/// off, text becomes a run with the current state, any break becomes a
/// line break, and everything else is skipped.
pub open spec fn fold_inline(ev: Seq<MdEvent>) -> (Seq<RunView>, bool, bool)
    decreases ev.len(),
{
    if ev.len() == 0 {
        (Seq::empty(), false, false)
    } else {
        let (runs, b, i) = fold_inline(ev.drop_last());
        match ev.last() {
            MdEvent::StartStrong => (runs, true, i),
            MdEvent::StartEmphasis => (runs, b, true),
            MdEvent::EndStrong => (runs, false, i),
            MdEvent::EndEmphasis => (runs, b, false),
            MdEvent::Text(t) => (runs.push(RunView::Text(t@, b, i)), b, i),
            MdEvent::SoftBreak => (runs.push(RunView::Break), b, i),
            MdEvent::HardBreak => (runs.push(RunView::Break), b, i),
            _ => (runs, b, i),
        }
    }
}

/// The Markdown events of a text, as the `pulldown-cmark` parser yields
/// them with its default options.
pub uninterp spec fn markdown_event_seq(text: Seq<char>) -> Seq<MdEvent>;

/// The paragraph of inline runs for a Markdown text.
pub open spec fn inline_paragraph(text: Seq<char>) -> ParaView {
    ParaView { runs: fold_inline(markdown_event_seq(text)).0, style: None, centered: false }
}

fn copy_text(s: &String) -> (r: String)
    ensures
        r@ == s@,
{
    string_of(&chars_of(s.as_str()))
}

/// The runs for a list of Markdown events (see `fold_inline`).
pub fn inline_runs(events: &Vec<MdEvent>) -> (r: Vec<RunSpec>)
    ensures
        run_views(r@) == fold_inline(events@).0,
{
    let mut runs: Vec<RunSpec> = Vec::new();
    let mut bold = false;
    let mut italic = false;
    let mut k: usize = 0;
    while k < events.len()
        invariant
            0 <= k <= events.len(),
            (run_views(runs@), bold, italic) == fold_inline(events@.take(k as int)),
        decreases events.len() - k,
    {
        proof {
            assert(events@.take(k + 1).drop_last() =~= events@.take(k as int));
            assert(events@.take(k + 1).last() == events@[k as int]);
        }
        let ghost before = runs@;
        match &events[k] {
            MdEvent::StartStrong => {
                bold = true;
            },
            MdEvent::StartEmphasis => {
                italic = true;
            },
            MdEvent::EndStrong => {
                bold = false;
            },
            MdEvent::EndEmphasis => {
                italic = false;
            },
            MdEvent::Text(t) => {
                runs.push(RunSpec::Text { text: copy_text(t), bold, italic });
                assert(run_views(runs@) =~= run_views(before).push(runs@.last()@));
            },
            MdEvent::SoftBreak => {
                runs.push(RunSpec::Break);
                assert(run_views(runs@) =~= run_views(before).push(RunView::Break));
            },
            MdEvent::HardBreak => {
                runs.push(RunSpec::Break);
                assert(run_views(runs@) =~= run_views(before).push(RunView::Break));
            },
            _ => {},
        }
        k = k + 1;
    }
    assert(events@.take(events.len() as int) =~= events@);
    runs
}

/// `pulldown_cmark::Event`, read only by the conversion below.
#[verifier::external_type_specification]
#[verifier::external_body]
pub struct ExMdRawEvent<'a>(Event<'a>);

/// `pulldown_cmark::Tag`, read only by the conversion below.
#[verifier::external_type_specification]
#[verifier::external_body]
pub struct ExMdRawTag<'a>(Tag<'a>);

/// `pulldown_cmark::TagEnd`, read only by the conversion below.
#[verifier::external_type_specification]
#[verifier::external_body]
pub struct ExMdRawTagEnd(TagEnd);

/// The `pulldown-cmark` start tag `t` as an `MdEvent`.
#[verifier::external_body]
fn md_start_of(t: Tag) -> MdEvent {
    match t {
        Tag::Paragraph => MdEvent::StartParagraph,
        Tag::Heading { level, .. } => MdEvent::StartHeading(level as u8),
        Tag::Strong => MdEvent::StartStrong,
        Tag::Emphasis => MdEvent::StartEmphasis,
        Tag::Item => MdEvent::StartItem,
        _ => MdEvent::StartOther,
    }
}

/// The `pulldown-cmark` end tag `t` as an `MdEvent`.
#[verifier::external_body]
fn md_end_of(t: TagEnd) -> MdEvent {
    match t {
        TagEnd::Paragraph => MdEvent::EndParagraph,
        TagEnd::Heading(_) => MdEvent::EndHeading,
        TagEnd::Strong => MdEvent::EndStrong,
        TagEnd::Emphasis => MdEvent::EndEmphasis,
        TagEnd::Item => MdEvent::EndItem,
        _ => MdEvent::EndOther,
    }
}

/// The `pulldown-cmark` event `e` as an `MdEvent`.
#[verifier::external_body]
fn md_event_of(e: Event) -> MdEvent {
    match e {
        Event::Start(t) => md_start_of(t),
        Event::End(t) => md_end_of(t),
        Event::Text(s) => MdEvent::Text(s.to_string()),
        Event::SoftBreak => MdEvent::SoftBreak,
        Event::HardBreak => MdEvent::HardBreak,
        _ => MdEvent::Other,
    }
}

/// Runs `pulldown_cmark::Parser::new(text)` (default options) to the end;
/// claimed to yield `markdown_event_seq(text@)`, each event converted.
#[verifier::external_body]
fn markdown_events(text: &str) -> (r: Vec<MdEvent>)
    ensures
        r@ == markdown_event_seq(text@),
{
    Parser::new(text).map(md_event_of).collect()
}

/// The paragraph of inline Markdown `text`: its runs, with no style.
pub fn process_text_content(text: &str) -> (r: ParagraphSpec)
    ensures
        r@ == inline_paragraph(text@),
{
    let events = markdown_events(text);
    ParagraphSpec { runs: inline_runs(&events), style: None, centered: false }
}

/// The paragraph style of a heading of level `level`: `Heading1` to
/// `Heading3`, and `Heading4` for any deeper or other level.
pub open spec fn heading_style(level: int) -> Seq<char> {
    if level == 1 {
        "Heading1"@
    } else if level == 2 {
        "Heading2"@
    } else if level == 3 {
        "Heading3"@
    } else {
        "Heading4"@
    }
}

/// An empty paragraph with style `style`.
pub open spec fn empty_para(style: Option<Seq<char>>) -> ParaView {
    ParaView { runs: Seq::empty(), style, centered: false }
}

/// `p` with run `r` appended.
pub open spec fn with_run(p: ParaView, r: RunView) -> ParaView {
    ParaView { runs: p.runs.push(r), ..p }
}

/// The state of the Markdown-to-document walk: the finished blocks, the
/// paragraph being filled, and the bold and italic switches.
pub type MdDocState = (Seq<BlockView>, Option<ParaView>, bool, bool);

/// One step of the Markdown-to-document walk for a Word document. A
/// paragraph, heading or list item opens a new paragraph (a list item
/// starts with a bullet); its end closes the open paragraph into the
/// document; text joins the open paragraph, or stands as a paragraph of its
/// own when none is open; a break joins the open paragraph, if any.
pub open spec fn md_doc_step(st: MdDocState, ev: MdEvent) -> MdDocState {
    let (blocks, cur, b, i) = st;
    match ev {
        MdEvent::StartParagraph => (blocks, Some(empty_para(None)), b, i),
        MdEvent::StartHeading(l) => (blocks, Some(empty_para(Some(heading_style(l as int)))), b, i),
        MdEvent::StartStrong => (blocks, cur, true, i),
        MdEvent::StartEmphasis => (blocks, cur, b, true),
        MdEvent::StartItem => (
            blocks,
            Some(with_run(empty_para(None), RunView::Text("\u{2022} "@, false, false))),
            b,
            i,
        ),
        MdEvent::EndParagraph | MdEvent::EndHeading | MdEvent::EndItem => match cur {
            Some(p) => (blocks.push(BlockView::Paragraph(p)), None, b, i),
            None => (blocks, None, b, i),
        },
        MdEvent::EndStrong => (blocks, cur, false, i),
        MdEvent::EndEmphasis => (blocks, cur, b, false),
        MdEvent::Text(t) => match cur {
            Some(p) => (blocks, Some(with_run(p, RunView::Text(t@, b, i))), b, i),
            None => (
                blocks.push(BlockView::Paragraph(with_run(empty_para(None), RunView::Text(t@, b, i)))),
                None,
                b,
                i,
            ),
        },
        MdEvent::SoftBreak | MdEvent::HardBreak => match cur {
            Some(p) => (blocks, Some(with_run(p, RunView::Break)), b, i),
            None => (blocks, None, b, i),
        },
        _ => st,
    }
}

/// The Markdown-to-document walk over `ev`.
pub open spec fn fold_md_doc(ev: Seq<MdEvent>) -> MdDocState
    decreases ev.len(),
{
    if ev.len() == 0 {
        (Seq::empty(), None, false, false)
    } else {
        md_doc_step(fold_md_doc(ev.drop_last()), ev.last())
    }
}

/// The heading styles: a heading of level 1, 2 or 3 gets the style
/// `Heading` followed by that level's digit, so the three get distinct
/// styles; every other level gets `Heading4`.
pub proof fn law_heading_styles(level: int)
    ensures
        1 <= level <= 3 ==> heading_style(level) == "Heading"@ + seq![(48 + level) as char],
        !(1 <= level <= 3) ==> heading_style(level) == "Heading4"@,
{
    reveal_strlit("Heading");
    reveal_strlit("Heading1");
    reveal_strlit("Heading2");
    reveal_strlit("Heading3");
    reveal_strlit("Heading4");
    if level == 1 {
        assert(heading_style(level) =~= "Heading"@ + seq![(48 + level) as char]);
    } else if level == 2 {
        assert(heading_style(level) =~= "Heading"@ + seq![(48 + level) as char]);
    } else if level == 3 {
        assert(heading_style(level) =~= "Heading"@ + seq![(48 + level) as char]);
    }
}

/// A Markdown event that only formats text inside a paragraph: text,
/// a break, or the start or end of strong or emphasised text.
pub open spec fn inline_event(e: MdEvent) -> bool {
    ||| e matches MdEvent::Text(_)
    ||| e is StartStrong
    ||| e is EndStrong
    ||| e is StartEmphasis
    ||| e is EndEmphasis
    ||| e is SoftBreak
    ||| e is HardBreak
}

proof fn lemma_open_paragraph(inner: Seq<MdEvent>)
    requires
        forall|k: int| 0 <= k < inner.len() ==> inline_event(#[trigger] inner[k]),
    ensures
        fold_md_doc(seq![MdEvent::StartParagraph] + inner) == (
            Seq::<BlockView>::empty(),
            Some(ParaView { runs: fold_inline(inner).0, style: None, centered: false }),
            fold_inline(inner).1,
            fold_inline(inner).2,
        ),
    decreases inner.len(),
{
    let ev = seq![MdEvent::StartParagraph] + inner;
    if inner.len() == 0 {
        assert(ev =~= seq![MdEvent::StartParagraph]);
        assert(ev.drop_last() =~= Seq::<MdEvent>::empty());
        assert(fold_md_doc(ev.drop_last()) == (Seq::<BlockView>::empty(), None::<ParaView>, false, false));
        assert(fold_md_doc(ev) == md_doc_step(fold_md_doc(ev.drop_last()), ev.last()));
        assert(fold_inline(inner) == (Seq::<RunView>::empty(), false, false));
        assert(empty_para(None) == ParaView { runs: fold_inline(inner).0, style: None, centered: false });
    } else {
        let pre = inner.drop_last();
        lemma_open_paragraph(pre);
        assert(ev.drop_last() =~= seq![MdEvent::StartParagraph] + pre);
        assert(ev.last() == inner.last());
        assert(inline_event(inner[inner.len() - 1]));
        assert(fold_md_doc(ev) == md_doc_step(fold_md_doc(ev.drop_last()), ev.last()));
        let (runs, b, i) = fold_inline(pre);
        let p = ParaView { runs, style: None, centered: false };
        assert(fold_md_doc(ev.drop_last()) == (Seq::<BlockView>::empty(), Some(p), b, i));
        match inner.last() {
            MdEvent::Text(t) => {
                assert(with_run(p, RunView::Text(t@, b, i)) == ParaView {
                    runs: runs.push(RunView::Text(t@, b, i)),
                    style: None,
                    centered: false,
                });
            },
            MdEvent::SoftBreak | MdEvent::HardBreak => {
                assert(with_run(p, RunView::Break) == ParaView { runs: runs.push(RunView::Break), style: None, centered: false });
            },
            _ => {},
        }
    }
}

/// The paragraphs written from Markdown carry the same runs as inline
/// Markdown: a paragraph whose events only format text is written as one
/// paragraph whose runs are exactly the inline runs of those events, so
/// text between a strong (emphasis) start and its end is written bold
/// (italic), and text outside them is not.
pub proof fn law_paragraph_runs_follow_inline(inner: Seq<MdEvent>)
    requires
        forall|k: int| 0 <= k < inner.len() ==> inline_event(#[trigger] inner[k]),
    ensures
        fold_md_doc(seq![MdEvent::StartParagraph] + inner + seq![MdEvent::EndParagraph]).0 == seq![
            BlockView::Paragraph(ParaView { runs: fold_inline(inner).0, style: None, centered: false }),
        ],
{
    lemma_open_paragraph(inner);
    let ev = seq![MdEvent::StartParagraph] + inner + seq![MdEvent::EndParagraph];
    assert(ev.drop_last() =~= seq![MdEvent::StartParagraph] + inner);
    assert(ev.last() == MdEvent::EndParagraph);
    assert(Seq::<BlockView>::empty().push(
        BlockView::Paragraph(ParaView { runs: fold_inline(inner).0, style: None, centered: false }),
    ) =~= seq![BlockView::Paragraph(ParaView { runs: fold_inline(inner).0, style: None, centered: false })]);
}

/// Text right after a strong start is written bold, and text right after
/// an emphasis start italic, whatever came before: the run it adds, to the
/// open paragraph or as a paragraph of its own, is a bold (italic) run of
/// that text.
pub proof fn law_text_after_start_is_marked(ev: Seq<MdEvent>, t: String)
    ensures
        ({
            let st = fold_md_doc(ev + seq![MdEvent::StartStrong, MdEvent::Text(t)]);
            match st.1 {
                Some(p) => p.runs.last() matches RunView::Text(x, true, _) && x == t@,
                None => st.0.last() matches BlockView::Paragraph(p) && p.runs.last() matches RunView::Text(x, true, _)
                    && x == t@,
            }
        }),
        ({
            let st = fold_md_doc(ev + seq![MdEvent::StartEmphasis, MdEvent::Text(t)]);
            match st.1 {
                Some(p) => p.runs.last() matches RunView::Text(x, _, true) && x == t@,
                None => st.0.last() matches BlockView::Paragraph(p) && p.runs.last() matches RunView::Text(x, _, true)
                    && x == t@,
            }
        }),
{
    let a = ev + seq![MdEvent::StartStrong, MdEvent::Text(t)];
    assert(a.drop_last() =~= ev.push(MdEvent::StartStrong));
    assert(a.drop_last().drop_last() =~= ev);
    assert(a.last() == MdEvent::Text(t));
    assert(fold_md_doc(a.drop_last()) == md_doc_step(fold_md_doc(ev), MdEvent::StartStrong));
    assert(fold_md_doc(a) == md_doc_step(fold_md_doc(a.drop_last()), MdEvent::Text(t)));
    let b = ev + seq![MdEvent::StartEmphasis, MdEvent::Text(t)];
    assert(b.drop_last() =~= ev.push(MdEvent::StartEmphasis));
    assert(b.drop_last().drop_last() =~= ev);
    assert(b.last() == MdEvent::Text(t));
    assert(fold_md_doc(b.drop_last()) == md_doc_step(fold_md_doc(ev), MdEvent::StartEmphasis));
    assert(fold_md_doc(b) == md_doc_step(fold_md_doc(b.drop_last()), MdEvent::Text(t)));
}

/// The body of a Word document written from Markdown `content`, with the
/// picture `image` last when one was found.
pub open spec fn word_doc_spec(content: Seq<char>, image: Option<Seq<u8>>) -> Seq<BlockView> {
    let blocks = fold_md_doc(markdown_event_seq(content)).0;
    match image {
        Some(d) => blocks.push(
            BlockView::Paragraph(with_run(empty_para(None), RunView::Image(d, None))),
        ),
        None => blocks,
    }
}

fn copy_bytes(v: &Vec<u8>) -> (r: Vec<u8>)
    ensures
        r@ == v@,
{
    let r = v.clone();
    assert(r@ =~= v@);
    r
}

fn heading_style_of(level: u64) -> (r: String)
    ensures
        r@ == heading_style(level as int),
{
    if level == 1 {
        string_of(&chars_of("Heading1"))
    } else if level == 2 {
        string_of(&chars_of("Heading2"))
    } else if level == 3 {
        string_of(&chars_of("Heading3"))
    } else {
        string_of(&chars_of("Heading4"))
    }
}

fn new_paragraph(style: Option<String>) -> (r: ParagraphSpec)
    ensures
        r@ == empty_para(
            match style {
                Some(s) => Some(s@),
                None => None,
            },
        ),
{
    let r = ParagraphSpec { runs: Vec::new(), style, centered: false };
    assert(run_views(r.runs@) =~= Seq::<RunView>::empty());
    r
}

fn push_run(p: &mut ParagraphSpec, run: RunSpec)
    ensures
        final(p)@ == with_run(old(p)@, run@),
{
    p.runs.push(run);
    assert(run_views(p.runs@) =~= run_views(old(p).runs@).push(run@));
}

/// The blocks of the Markdown-to-document walk over `events` (see
/// `fold_md_doc`).
pub fn markdown_blocks(events: &Vec<MdEvent>) -> (r: Vec<Block>)
    ensures
        block_views(r@) == fold_md_doc(events@).0,
{
    let mut blocks: Vec<Block> = Vec::new();
    let mut cur: Option<ParagraphSpec> = None;
    let mut bold = false;
    let mut italic = false;
    let mut k: usize = 0;
    while k < events.len()
        invariant
            0 <= k <= events.len(),
            fold_md_doc(events@.take(k as int)) == (
                block_views(blocks@),
                match cur {
                    Some(p) => Some(p@),
                    None => None,
                },
                bold,
                italic,
            ),
        decreases events.len() - k,
    {
        proof {
            assert(events@.take(k + 1).drop_last() =~= events@.take(k as int));
            assert(events@.take(k + 1).last() == events@[k as int]);
        }
        let ghost bv = block_views(blocks@);
        match &events[k] {
            MdEvent::StartParagraph => {
                cur = Some(new_paragraph(None));
            },
            MdEvent::StartHeading(l) => {
                cur = Some(new_paragraph(Some(heading_style_of(*l as u64))));
            },
            MdEvent::StartStrong => {
                bold = true;
            },
            MdEvent::StartEmphasis => {
                italic = true;
            },
            MdEvent::StartItem => {
                let mut p = new_paragraph(None);
                push_run(&mut p, RunSpec::Text { text: string_of(&chars_of("\u{2022} ")), bold: false, italic: false });
                cur = Some(p);
            },
            MdEvent::EndParagraph | MdEvent::EndHeading | MdEvent::EndItem => {
                match cur.take() {
                    Some(p) => {
                        blocks.push(Block::Paragraph(p));
                        assert(block_views(blocks@) =~= bv.push(blocks@.last()@));
                    },
                    None => {},
                }
            },
            MdEvent::EndStrong => {
                bold = false;
            },
            MdEvent::EndEmphasis => {
                italic = false;
            },
            MdEvent::Text(t) => {
                let run = RunSpec::Text { text: copy_text(t), bold, italic };
                match cur.take() {
                    Some(mut p) => {
                        push_run(&mut p, run);
                        cur = Some(p);
                    },
                    None => {
                        let mut p = new_paragraph(None);
                        push_run(&mut p, run);
                        blocks.push(Block::Paragraph(p));
                        assert(block_views(blocks@) =~= bv.push(blocks@.last()@));
                    },
                }
            },
            MdEvent::SoftBreak | MdEvent::HardBreak => {
                match cur.take() {
                    Some(mut p) => {
                        push_run(&mut p, RunSpec::Break);
                        cur = Some(p);
                    },
                    None => {},
                }
            },
            _ => {},
        }
        k = k + 1;
    }
    assert(events@.take(events.len() as int) =~= events@);
    blocks
}

/// The body of a Word document written from Markdown `content`, with the
/// fetched picture `image` last (see `word_doc_spec`).
pub fn word_doc_blocks(content: &str, image: Option<Vec<u8>>) -> (r: Vec<Block>)
    ensures
        block_views(r@) == word_doc_spec(
            content@,
            match image {
                Some(d) => Some(d@),
                None => None,
            },
        ),
{
    let events = markdown_events(content);
    let mut blocks = markdown_blocks(&events);
    match image {
        Some(d) => {
            let ghost bv = block_views(blocks@);
            let mut p = new_paragraph(None);
            push_run(&mut p, RunSpec::Image { data: d, size: None });
            blocks.push(Block::Paragraph(p));
            assert(block_views(blocks@) =~= bv.push(blocks@.last()@));
        },
        None => {},
    }
    blocks
}

/// One element of the JSON document description that the agent writes.
pub enum DocElement {
    Paragraph { text: String, style: Option<String> },
    Heading { text: String, level: usize },
    Table { rows: Vec<Vec<String>>, headers: Option<Vec<String>> },
    Image { image_id: u128, width: Option<u32>, height: Option<u32>, caption: Option<String> },
    List { items: Vec<String> },
}

/// A list item: a bullet, then the item as inline Markdown.
pub open spec fn list_item_para(item: Seq<char>) -> ParaView {
    ParaView {
        runs: seq![RunView::Text("\u{2022} "@, false, false)] + inline_paragraph(item).runs,
        ..inline_paragraph(item)
    }
}

/// A header cell: its text as one bold run.
pub open spec fn header_cell(h: Seq<char>) -> ParaView {
    with_run(empty_para(None), RunView::Text(h, true, false))
}

/// The header row of a table, if it has headers.
pub open spec fn header_rows(headers: Option<Vec<String>>) -> Seq<Seq<ParaView>> {
    match headers {
        Some(h) => seq![Seq::new(h@.len(), |j: int| header_cell(h@[j]@))],
        None => Seq::empty(),
    }
}

/// The data rows of a table: each cell is its inline Markdown paragraph.
pub open spec fn data_rows(rows: Seq<Vec<String>>) -> Seq<Seq<ParaView>> {
    Seq::new(rows.len(), |i: int| Seq::new(rows[i]@.len(), |j: int| inline_paragraph(rows[i]@[j]@)))
}

/// The centred paragraph of a picture: the picture, at the asked size when
/// both width and height are given, then a line break and the caption, if any.
pub open spec fn image_para(d: Seq<u8>, w: Option<u32>, h: Option<u32>, caption: Option<String>) -> ParaView {
    let size = match (w, h) {
        (Some(x), Some(y)) => Some((x, y)),
        _ => None,
    };
    let tail = match caption {
        Some(c) => seq![RunView::Break, RunView::Text(c@, false, false)],
        None => Seq::empty(),
    };
    ParaView { runs: seq![RunView::Image(d, size)] + tail, style: None, centered: true }
}

/// The blocks of one element; a picture only when its image was fetched.
pub open spec fn element_blocks(e: DocElement, fetched: Option<Seq<u8>>) -> Seq<BlockView> {
    match e {
        DocElement::Paragraph { text, .. } => seq![BlockView::Paragraph(inline_paragraph(text@))],
        DocElement::Heading { text, level } => seq![
            BlockView::Paragraph(
                ParaView { style: Some(heading_style(level as int)), ..inline_paragraph(text@) },
            ),
        ],
        DocElement::Table { rows, headers } => seq![
            BlockView::Table(header_rows(headers) + data_rows(rows@)),
        ],
        DocElement::Image { width, height, caption, .. } => match fetched {
            Some(d) => seq![BlockView::Paragraph(image_para(d, width, height, caption))],
            None => Seq::empty(),
        },
        DocElement::List { items } => Seq::new(
            items@.len(),
            |j: int| BlockView::Paragraph(list_item_para(items@[j]@)),
        ),
    }
}

/// The bytes of a fetched image, if it was fetched.
pub open spec fn fetched_view(f: Option<Vec<u8>>) -> Option<Seq<u8>> {
    match f {
        Some(d) => Some(d@),
        None => None,
    }
}

/// The body written for the first `n` elements, `fetched[i]` being the
/// image fetched for element `i`.
pub open spec fn doc_blocks(elements: Seq<DocElement>, fetched: Seq<Option<Vec<u8>>>, n: int) -> Seq<BlockView>
    decreases n,
{
    if n <= 0 {
        Seq::empty()
    } else {
        doc_blocks(elements, fetched, n - 1) + element_blocks(elements[n - 1], fetched_view(fetched[n - 1]))
    }
}

fn inline_paragraph_of(text: &String) -> (r: ParagraphSpec)
    ensures
        r@ == inline_paragraph(text@),
{
    process_text_content(text.as_str())
}

fn table_block(rows: &Vec<Vec<String>>, headers: &Option<Vec<String>>) -> (r: Block)
    ensures
        r@ == BlockView::Table(header_rows(*headers) + data_rows(rows@)),
{
    let mut out: Vec<Vec<ParagraphSpec>> = Vec::new();
    let ghost hr = header_rows(*headers);
    match headers {
        Some(h) => {
            let mut cells: Vec<ParagraphSpec> = Vec::new();
            let mut j: usize = 0;
            while j < h.len()
                invariant
                    0 <= j <= h.len(),
                    cells@.len() == j,
                    forall|k: int| 0 <= k < j ==> (#[trigger] cells@[k])@ == header_cell(h@[k]@),
                decreases h.len() - j,
            {
                let mut p = new_paragraph(None);
                push_run(&mut p, RunSpec::Text { text: copy_text(&h[j]), bold: true, italic: false });
                cells.push(p);
                j = j + 1;
            }
            out.push(cells);
        },
        None => {},
    }
    assert(out@.len() == hr.len());
    assert forall|k: int| 0 <= k < out@.len() implies cell_views((#[trigger] out@[k])@) == hr[k] by {
        assert(cell_views(out@[k]@) =~= hr[k]);
    }
    let start = out.len();
    let mut i: usize = 0;
    while i < rows.len()
        invariant
            0 <= i <= rows.len(),
            start == hr.len(),
            out@.len() == start + i,
            forall|k: int| 0 <= k < start ==> cell_views((#[trigger] out@[k])@) == hr[k],
            forall|k: int| start <= k < start + i ==> cell_views((#[trigger] out@[k])@) == data_rows(rows@)[k - start],
        decreases rows.len() - i,
    {
        let row = &rows[i];
        let mut cells: Vec<ParagraphSpec> = Vec::new();
        let mut j: usize = 0;
        while j < row.len()
            invariant
                0 <= j <= row.len(),
                cells@.len() == j,
                forall|k: int| 0 <= k < j ==> (#[trigger] cells@[k])@ == inline_paragraph(row@[k]@),
            decreases row.len() - j,
        {
            cells.push(inline_paragraph_of(&row[j]));
            j = j + 1;
        }
        assert(cell_views(cells@) =~= data_rows(rows@)[i as int]);
        out.push(cells);
        i = i + 1;
    }
    let r = Block::Table(out);
    assert(r@ == BlockView::Table(out@.map_values(|row: Vec<ParagraphSpec>| cell_views(row@))));
    assert(out@.map_values(|row: Vec<ParagraphSpec>| cell_views(row@)) =~= hr + data_rows(rows@));
    r
}

fn image_block(d: &Vec<u8>, width: Option<u32>, height: Option<u32>, caption: &Option<String>) -> (r: Block)
    ensures
        r@ == BlockView::Paragraph(image_para(d@, width, height, *caption)),
{
    let size = match (width, height) {
        (Some(w), Some(h)) => Some((w, h)),
        _ => None,
    };
    let mut p = ParagraphSpec { runs: Vec::new(), style: None, centered: true };
    let ghost r0 = run_views(p.runs@);
    p.runs.push(RunSpec::Image { data: copy_bytes(d), size });
    match caption {
        Some(c) => {
            p.runs.push(RunSpec::Break);
            p.runs.push(RunSpec::Text { text: copy_text(c), bold: false, italic: false });
        },
        None => {},
    }
    assert(run_views(p.runs@) =~= image_para(d@, width, height, *caption).runs);
    Block::Paragraph(p)
}

fn list_item_block(item: &String) -> (r: Block)
    ensures
        r@ == BlockView::Paragraph(list_item_para(item@)),
{
    let mut inner = inline_paragraph_of(item);
    let ghost tail = run_views(inner.runs@);
    let mut runs: Vec<RunSpec> = Vec::new();
    runs.push(RunSpec::Text { text: string_of(&chars_of("\u{2022} ")), bold: false, italic: false });
    runs.append(&mut inner.runs);
    assert(run_views(runs@) =~= list_item_para(item@).runs);
    Block::Paragraph(ParagraphSpec { runs, style: None, centered: false })
}

/// The body of a Word document for the element list `elements`;
/// `fetched[i]` is the image fetched for element `i` (ignored for other
/// elements), and an image that could not be fetched is left out.
pub fn document_blocks(elements: &Vec<DocElement>, fetched: &Vec<Option<Vec<u8>>>) -> (r: Vec<Block>)
    requires
        fetched.len() == elements.len(),
    ensures
        block_views(r@) == doc_blocks(elements@, fetched@, elements@.len() as int),
{
    let mut blocks: Vec<Block> = Vec::new();
    let mut i: usize = 0;
    while i < elements.len()
        invariant
            0 <= i <= elements.len(),
            fetched.len() == elements.len(),
            block_views(blocks@) == doc_blocks(elements@, fetched@, i as int),
        decreases elements.len() - i,
    {
        let ghost bv = block_views(blocks@);
        match &elements[i] {
            DocElement::Paragraph { text, .. } => {
                blocks.push(Block::Paragraph(inline_paragraph_of(text)));
                assert(block_views(blocks@) =~= bv + element_blocks(elements@[i as int], fetched_view(fetched@[i as int])));
            },
            DocElement::Heading { text, level } => {
                let mut p = inline_paragraph_of(text);
                p.style = Some(heading_style_of(*level as u64));
                blocks.push(Block::Paragraph(p));
                assert(block_views(blocks@) =~= bv + element_blocks(elements@[i as int], fetched_view(fetched@[i as int])));
            },
            DocElement::Table { rows, headers } => {
                blocks.push(table_block(rows, headers));
                assert(block_views(blocks@) =~= bv + element_blocks(elements@[i as int], fetched_view(fetched@[i as int])));
            },
            DocElement::Image { width, height, caption, .. } => {
                match &fetched[i] {
                    Some(d) => {
                        blocks.push(image_block(d, *width, *height, caption));
                        assert(block_views(blocks@) =~= bv + element_blocks(elements@[i as int], fetched_view(fetched@[i as int])));
                    },
                    None => {
                        assert(block_views(blocks@) =~= bv + element_blocks(elements@[i as int], fetched_view(fetched@[i as int])));
                    },
                }
            },
            DocElement::List { items } => {
                let mut j: usize = 0;
                while j < items.len()
                    invariant
                        0 <= j <= items.len(),
                        block_views(blocks@) == bv + element_blocks(elements@[i as int], None).take(j as int),
                        elements@[i as int] == (DocElement::List { items: *items }),
                    decreases items.len() - j,
                {
                    let ghost before = block_views(blocks@);
                    blocks.push(list_item_block(&items[j]));
                    assert(block_views(blocks@) =~= before.push(blocks@.last()@));
                    assert(element_blocks(elements@[i as int], None).take(j + 1) =~= element_blocks(
                        elements@[i as int],
                        None,
                    ).take(j as int).push(BlockView::Paragraph(list_item_para(items@[j as int]@))));
                    j = j + 1;
                }
                assert(element_blocks(elements@[i as int], None).take(items.len() as int) =~= element_blocks(
                    elements@[i as int],
                    fetched_view(fetched@[i as int]),
                ));
            },
        }
        i = i + 1;
    }
    blocks
}

} // verus!
