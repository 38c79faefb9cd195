//! Writing the document model out as a Word file with the `docx-rs` crate.
use vstd::prelude::*;
use docx_rs::{AlignmentType, BreakType, Docx, Paragraph, Pic, Run, Table, TableCell, TableRow};
use crate::agent::files::zip_archive_start;
use crate::agent::docx::{
    Block, BlockView, DocElement, MdEvent, ParaView, ParagraphSpec, RunSpec, RunView, block_views,
    cell_views, doc_blocks, document_blocks, element_blocks, empty_para, fetched_view, fold_inline,
    fold_md_doc, header_rows, data_rows, image_para, inline_paragraph, list_item_para, markdown_event_seq, run_views,
    with_run, word_doc_blocks, word_doc_spec,
};

verus! {

/// `docx_rs::Docx`, built up opaquely.
#[verifier::external_type_specification]
#[verifier::external_body]
pub struct ExDocx(Docx);

/// `docx_rs::Paragraph`, built up opaquely.
#[verifier::external_type_specification]
#[verifier::external_body]
pub struct ExParagraph(Paragraph);

/// `docx_rs::Run`, built up opaquely.
#[verifier::external_type_specification]
#[verifier::external_body]
pub struct ExRun(Run);

/// `docx_rs::Pic`, built up opaquely.
#[verifier::external_type_specification]
#[verifier::external_body]
pub struct ExPic(Pic);

/// `docx_rs::Table`, built up opaquely.
#[verifier::external_type_specification]
#[verifier::external_body]
pub struct ExTable(Table);

/// `docx_rs::TableRow`, built up opaquely.
#[verifier::external_type_specification]
#[verifier::external_body]
pub struct ExTableRow(TableRow);

/// `docx_rs::TableCell`, built up opaquely.
#[verifier::external_type_specification]
#[verifier::external_body]
pub struct ExTableCell(TableCell);

/// The size in pixels that `docx_rs::Pic::new` reads from `data`: for
/// bytes that open with the PNG signature, the size in the PNG header;
/// otherwise the size of the image that the `image` crate decodes, when it
/// can also encode that image as PNG. `None` where this reading fails.
pub uninterp spec fn picture_size(data: Seq<u8>) -> Option<(u32, u32)>;

/// The largest width or height in pixels whose size in EMU (9525 to the
/// pixel, as `docx-rs` counts) fits a `u32`.
pub const MAX_PICTURE_PX: u32 = 450915;

/// `docx_rs::Pic::new` returns (rather than panics) for the bytes `data`:
/// it reads their size, and the size in EMU fits its `u32` fields.
pub open spec fn pic_accepts(data: Seq<u8>) -> bool {
    match picture_size(data) {
        Some((w, h)) => w <= MAX_PICTURE_PX && h <= MAX_PICTURE_PX,
        None => false,
    }
}

/// The bytes open with the eight-byte PNG signature.
pub open spec fn png_signature(data: Seq<u8>) -> bool {
    &&& data.len() >= 8
    &&& data[0] == 137u8 && data[1] == 80u8 && data[2] == 78u8 && data[3] == 71u8
    &&& data[4] == 13u8 && data[5] == 10u8 && data[6] == 26u8 && data[7] == 10u8
}

/// `image::ImageReader::new` over the bytes, `with_guessed_format`, then
/// `into_dimensions`, as `docx_rs::Pic::new` reads a PNG. Claimed: for bytes
/// with the PNG signature this is `picture_size(data@)`.
#[verifier::external_body]
fn png_header_size(data: &[u8]) -> (r: Option<(u32, u32)>)
    ensures
        png_signature(data@) ==> r == picture_size(data@),
{
    image::ImageReader::new(std::io::Cursor::new(data)).with_guessed_format().ok().and_then(|r| r.into_dimensions().ok())
}

/// `image::load_from_memory`, `GenericImageView::dimensions` and
/// `DynamicImage::write_to` as PNG, as `docx_rs::Pic::new` reads other
/// bytes. Claimed: for bytes without the PNG signature this is
/// `picture_size(data@)`.
#[verifier::external_body]
fn decoded_size(data: &[u8]) -> (r: Option<(u32, u32)>)
    ensures
        !png_signature(data@) ==> r == picture_size(data@),
{
    let img = image::load_from_memory(data).ok()?;
    let size = image::GenericImageView::dimensions(&img);
    img.write_to(&mut std::io::Cursor::new(Vec::new()), image::ImageFormat::Png).ok().map(|_| size)
}

/// Whether `docx-rs` can take the bytes `data` as a picture.
pub fn picture_readable(data: &[u8]) -> (r: bool)
    ensures
        r == pic_accepts(data@),
{
    let png = data.len() >= 8 && data[0] == 137u8 && data[1] == 80u8 && data[2] == 78u8 && data[3] == 71u8
        && data[4] == 13u8 && data[5] == 10u8 && data[6] == 26u8 && data[7] == 10u8;
    let size = if png {
        png_header_size(data)
    } else {
        decoded_size(data)
    };
    match size {
        Some((w, h)) => w <= MAX_PICTURE_PX && h <= MAX_PICTURE_PX,
        None => false,
    }
}

/// One child of a run as `docx-rs` holds it: text (as stored, its line
/// feeds removed), a line break, or a picture with the bytes it stores and
/// its size in EMU.
pub enum RunItem {
    Text(Seq<char>),
    Break,
    Picture(Seq<u8>, (u32, u32)),
}

/// A run as `docx-rs` holds it: its children and whether it is bold and
/// italic.
pub struct FileRun {
    pub items: Seq<RunItem>,
    pub bold: bool,
    pub italic: bool,
}

/// A paragraph as `docx-rs` holds it: its runs, its style, and whether it
/// is centred.
pub struct FilePara {
    pub runs: Seq<FileRun>,
    pub style: Option<Seq<char>>,
    pub centered: bool,
}

/// A block of the document body as `docx-rs` holds it: a paragraph, or a
/// table given as rows of cells, each cell a list of paragraphs.
pub enum FileBlock {
    Paragraph(FilePara),
    Table(Seq<Seq<Seq<FilePara>>>),
}

/// The blocks of the body of a `docx_rs::Docx`, in order.
pub uninterp spec fn docx_body(d: Docx) -> Seq<FileBlock>;

/// The runs of a `docx_rs::Paragraph`, in order.
pub uninterp spec fn para_runs(p: Paragraph) -> Seq<FileRun>;

/// The style and the centring of a `docx_rs::Paragraph`.
pub uninterp spec fn para_format(p: Paragraph) -> (Option<Seq<char>>, bool);

/// The children of a `docx_rs::Run`, in order.
pub uninterp spec fn run_items(r: Run) -> Seq<RunItem>;

/// Whether a `docx_rs::Run` is bold and whether it is italic.
pub uninterp spec fn run_marks(r: Run) -> (bool, bool);

/// The image bytes that a `docx_rs::Pic` stores.
pub uninterp spec fn pic_image(p: Pic) -> Seq<u8>;

/// The size in EMU of a `docx_rs::Pic`.
pub uninterp spec fn pic_extent(p: Pic) -> (u32, u32);

/// The rows of a `docx_rs::Table`, each as its cells' paragraphs.
pub uninterp spec fn table_rows(t: Table) -> Seq<Seq<Seq<FilePara>>>;

/// The cells of a `docx_rs::TableRow`, each as its paragraphs.
pub uninterp spec fn row_cells(r: TableRow) -> Seq<Seq<FilePara>>;

/// The paragraphs of a `docx_rs::TableCell`.
pub uninterp spec fn cell_paras(c: TableCell) -> Seq<FilePara>;

/// The PNG bytes that the `image` crate writes for the image it decodes
/// from `data` (as `docx_rs::Pic::new` stores a picture that is not PNG).
pub uninterp spec fn png_reencoding(data: Seq<u8>) -> Seq<u8>;

/// The body of the Word file `file`: the blocks that its
/// `word/document.xml` holds.
pub uninterp spec fn word_body(file: Seq<u8>) -> Seq<FileBlock>;

/// The text with its line feeds removed.
pub open spec fn without_newlines(t: Seq<char>) -> Seq<char> {
    t.filter(|c: char| c != '\n')
}

/// The size in EMU (9525 to the pixel) of the picture `data`, as
/// `docx_rs::Pic::new` sets it.
pub open spec fn emu_extent(data: Seq<u8>) -> (u32, u32) {
    match picture_size(data) {
        Some((w, h)) => ((w * 9525) as u32, (h * 9525) as u32),
        None => (0, 0),
    }
}

/// The bytes that `docx_rs::Pic::new` stores for the picture `data`: the
/// bytes themselves when they are PNG, else their PNG re-encoding.
pub open spec fn stored_picture(data: Seq<u8>) -> Seq<u8> {
    if png_signature(data) {
        data
    } else {
        png_reencoding(data)
    }
}

/// A `docx_rs::Paragraph` in the model.
pub open spec fn para_file(p: Paragraph) -> FilePara {
    FilePara { runs: para_runs(p), style: para_format(p).0, centered: para_format(p).1 }
}

/// A `docx_rs::Run` in the model.
pub open spec fn run_file(r: Run) -> FileRun {
    FileRun { items: run_items(r), bold: run_marks(r).0, italic: run_marks(r).1 }
}

/// How a run of the document model is written: text as a bold or italic
/// run of the text, a break as a run holding a line break, and a picture as
/// a run holding the stored picture at the asked size, or else at its own.
pub open spec fn file_run(r: RunView) -> FileRun {
    match r {
        RunView::Text(t, b, i) => FileRun { items: seq![RunItem::Text(without_newlines(t))], bold: b, italic: i },
        RunView::Break => FileRun { items: seq![RunItem::Break], bold: false, italic: false },
        RunView::Image(d, size) => FileRun {
            items: seq![
                RunItem::Picture(
                    stored_picture(d),
                    match size {
                        Some(s) => s,
                        None => emu_extent(d),
                    },
                ),
            ],
            bold: false,
            italic: false,
        },
    }
}

/// How a paragraph of the document model is written: its runs in order,
/// with its style and centring.
pub open spec fn file_para(p: ParaView) -> FilePara {
    FilePara { runs: p.runs.map_values(|r: RunView| file_run(r)), style: p.style, centered: p.centered }
}

/// How a table row of the document model is written: each cell holds its
/// one paragraph.
pub open spec fn file_row(row: Seq<ParaView>) -> Seq<Seq<FilePara>> {
    row.map_values(|p: ParaView| seq![file_para(p)])
}

/// How a block of the document model is written.
pub open spec fn file_block(b: BlockView) -> FileBlock {
    match b {
        BlockView::Paragraph(p) => FileBlock::Paragraph(file_para(p)),
        BlockView::Table(rows) => FileBlock::Table(rows.map_values(|row: Seq<ParaView>| file_row(row))),
    }
}

/// How the blocks of the document model are written, in order.
pub open spec fn file_blocks(blocks: Seq<BlockView>) -> Seq<FileBlock> {
    blocks.map_values(|b: BlockView| file_block(b))
}

/// The weight of a run child: one, plus a text's length; a picture 128,
/// plus its length in 4 KiB units.
pub open spec fn item_weight(c: RunItem) -> int {
    match c {
        RunItem::Text(t) => 1 + t.len() as int,
        RunItem::Break => 1,
        RunItem::Picture(d, _) => 128 + (d.len() / 4096) as int,
    }
}

/// The weight of a run: one, plus its children's.
pub open spec fn file_run_weight(r: FileRun) -> int {
    r.items.fold_left(1int, |a: int, c: RunItem| a + item_weight(c))
}

/// The weight of a paragraph: one, plus its style's length, plus its runs'.
pub open spec fn file_para_weight(p: FilePara) -> int {
    p.runs.fold_left(
        1 + match p.style {
            Some(s) => s.len() as int,
            None => 0int,
        },
        |a: int, r: FileRun| a + file_run_weight(r),
    )
}

/// The weight of a table cell: one, plus its paragraphs'.
pub open spec fn file_cell_weight(c: Seq<FilePara>) -> int {
    c.fold_left(1int, |a: int, p: FilePara| a + file_para_weight(p))
}

/// The weight of a table row: one, plus its cells'.
pub open spec fn file_row_weight(row: Seq<Seq<FilePara>>) -> int {
    row.fold_left(1int, |a: int, c: Seq<FilePara>| a + file_cell_weight(c))
}

/// The weight of a block.
pub open spec fn file_block_weight(b: FileBlock) -> int {
    match b {
        FileBlock::Paragraph(p) => file_para_weight(p),
        FileBlock::Table(rows) => rows.fold_left(1int, |a: int, row: Seq<Seq<FilePara>>| a + file_row_weight(row)),
    }
}

/// The weight of a document body: the sum of its blocks' weights.
pub open spec fn body_weight(body: Seq<FileBlock>) -> int {
    body.fold_left(0int, |a: int, b: FileBlock| a + file_block_weight(b))
}

/// The largest body weight for which packing is claimed to succeed.
pub const MAX_BODY_WEIGHT: u64 = 524288;

/// `docx_rs::Docx::new`. Claimed: the body is empty.
#[verifier::external_body]
fn docx_new() -> (r: Docx)
    ensures
        docx_body(r) == Seq::<FileBlock>::empty(),
{
    Docx::new()
}

/// `docx_rs::Docx::add_paragraph`. Claimed: the paragraph is appended to
/// the body.
#[verifier::external_body]
fn docx_add_paragraph(d: Docx, p: Paragraph) -> (r: Docx)
    ensures
        docx_body(r) == docx_body(d).push(
            FileBlock::Paragraph(FilePara { runs: para_runs(p), style: para_format(p).0, centered: para_format(p).1 }),
        ),
{
    d.add_paragraph(p)
}

/// `docx_rs::Docx::add_table`. Claimed: the table is appended to the body.
#[verifier::external_body]
fn docx_add_table(d: Docx, t: Table) -> (r: Docx)
    ensures
        docx_body(r) == docx_body(d).push(FileBlock::Table(table_rows(t))),
{
    d.add_table(t)
}

/// `docx_rs::Docx::build` then `XMLDocx::pack` into memory; the zip
/// error, if any, as its text. Claimed: the bytes packed are a zip archive
/// written from its start by the `zip` crate's `ZipWriter`, which opens
/// with the local header of its first entry, and the Word file holds the
/// body of `d`. Claimed to succeed when the body weighs at most
/// `MAX_BODY_WEIGHT` (2^19): writing into a `Cursor<Vec<u8>>` does not
/// fail, and the `zip` writer, with no large-file option set, refuses only
/// entries and archives of 4 GiB or more and more than 65535 entries. Each
/// weight unit stands for at most 4 KiB of the archive (a character's
/// escaped UTF-8 is at most 6 bytes, the markup of a run, paragraph, cell,
/// row or table well under 4 KiB, a picture's drawing markup and
/// relationship under 128 such units, and its stored bytes 4 KiB a unit),
/// so the whole archive stays near 2 GiB, and there are at most 4096
/// pictures, one entry each. Nothing is
/// claimed of the bytes beyond this: the pictures' ids come from counters
/// shared by the whole process.
#[verifier::external_body]
fn docx_pack(d: Docx) -> (r: Result<Vec<u8>, String>)
    ensures
        r matches Ok(b) ==> zip_archive_start(b@) && word_body(b@) == docx_body(d),
        body_weight(docx_body(d)) <= MAX_BODY_WEIGHT ==> r is Ok,
{
    let mut out = std::io::Cursor::new(Vec::new());
    d.build().pack(&mut out).map_err(|e| e.to_string())?;
    Ok(out.into_inner())
}

/// `docx_rs::Paragraph::new`. Claimed: no runs, no style, not centred.
#[verifier::external_body]
fn paragraph_new() -> (r: Paragraph)
    ensures
        para_runs(r) == Seq::<FileRun>::empty(),
        para_format(r) == (None::<Seq<char>>, false),
{
    Paragraph::new()
}

/// `docx_rs::Paragraph::add_run`. Claimed: the run is appended.
#[verifier::external_body]
fn paragraph_add_run(p: Paragraph, r: Run) -> (res: Paragraph)
    ensures
        para_runs(res) == para_runs(p).push(FileRun { items: run_items(r), bold: run_marks(r).0, italic: run_marks(r).1 }),
        para_format(res) == para_format(p),
{
    p.add_run(r)
}

/// `docx_rs::Paragraph::style`. Claimed: the style is set.
#[verifier::external_body]
fn paragraph_style(p: Paragraph, style: &str) -> (r: Paragraph)
    ensures
        para_runs(r) == para_runs(p),
        para_format(r) == (Some(style@), para_format(p).1),
{
    p.style(style)
}

/// `docx_rs::Paragraph::align` with `AlignmentType::Center`. Claimed: the
/// paragraph is centred.
#[verifier::external_body]
fn paragraph_center(p: Paragraph) -> (r: Paragraph)
    ensures
        para_runs(r) == para_runs(p),
        para_format(r) == (para_format(p).0, true),
{
    p.align(AlignmentType::Center)
}

/// `docx_rs::Run::new`. Claimed: no children, neither bold nor italic.
#[verifier::external_body]
fn run_new() -> (r: Run)
    ensures
        run_items(r) == Seq::<RunItem>::empty(),
        run_marks(r) == (false, false),
{
    Run::new()
}

/// `docx_rs::Run::bold`. Claimed: the run is bold.
#[verifier::external_body]
fn run_bold(r: Run) -> (res: Run)
    ensures
        run_items(res) == run_items(r),
        run_marks(res) == (true, run_marks(r).1),
{
    r.bold()
}

/// `docx_rs::Run::italic`. Claimed: the run is italic.
#[verifier::external_body]
fn run_italic(r: Run) -> (res: Run)
    ensures
        run_items(res) == run_items(r),
        run_marks(res) == (run_marks(r).0, true),
{
    r.italic()
}

/// `docx_rs::Run::add_text`. Claimed: the text, its line feeds removed, is
/// appended as a child.
#[verifier::external_body]
fn run_add_text(r: Run, text: &str) -> (res: Run)
    ensures
        run_items(res) == run_items(r).push(RunItem::Text(without_newlines(text@))),
        run_marks(res) == run_marks(r),
{
    r.add_text(text)
}

/// `docx_rs::Run::add_break` with `BreakType::TextWrapping`. Claimed: a
/// line break is appended as a child.
#[verifier::external_body]
fn run_add_break(r: Run) -> (res: Run)
    ensures
        run_items(res) == run_items(r).push(RunItem::Break),
        run_marks(res) == run_marks(r),
{
    r.add_break(BreakType::TextWrapping)
}

/// `docx_rs::Run::add_image`. Claimed: the picture is appended as a child.
#[verifier::external_body]
fn run_add_image(r: Run, pic: Pic) -> (res: Run)
    ensures
        run_items(res) == run_items(r).push(RunItem::Picture(pic_image(pic), pic_extent(pic))),
        run_marks(res) == run_marks(r),
{
    r.add_image(pic)
}

/// `docx_rs::Pic::new`, which panics on bytes whose size it cannot read,
/// and (in builds that check arithmetic) on a size whose EMU overflows.
/// Claimed: it stores PNG bytes as they are and other pictures re-encoded
/// as PNG, at their own size in EMU.
#[verifier::external_body]
fn pic_new(data: &[u8]) -> (r: Pic)
    requires
        pic_accepts(data@),
    ensures
        pic_image(r) == (if png_signature(data@) { data@ } else { png_reencoding(data@) }),
        pic_extent(r) == emu_extent(data@),
{
    Pic::new(data)
}

/// `docx_rs::Pic::size`. Claimed: the size is set, the image kept.
#[verifier::external_body]
fn pic_size(p: Pic, w: u32, h: u32) -> (r: Pic)
    ensures
        pic_image(r) == pic_image(p),
        pic_extent(r) == (w, h),
{
    p.size(w, h)
}

/// `docx_rs::Table::new`. Claimed: the rows in order.
#[verifier::external_body]
fn table_new(rows: Vec<TableRow>) -> (r: Table)
    ensures
        table_rows(r) == rows@.map_values(|x: TableRow| row_cells(x)),
{
    Table::new(rows)
}

/// `docx_rs::TableRow::new`. Claimed: the cells in order.
#[verifier::external_body]
fn table_row_new(cells: Vec<TableCell>) -> (r: TableRow)
    ensures
        row_cells(r) == cells@.map_values(|c: TableCell| cell_paras(c)),
{
    TableRow::new(cells)
}

/// `docx_rs::TableCell::new` then `add_paragraph`. Claimed: the cell holds
/// that one paragraph.
#[verifier::external_body]
fn table_cell_of(p: Paragraph) -> (r: TableCell)
    ensures
        cell_paras(r) == seq![FilePara { runs: para_runs(p), style: para_format(p).0, centered: para_format(p).1 }],
{
    TableCell::new().add_paragraph(p)
}

/// Every picture of the runs can be read by `docx-rs`.
pub open spec fn runs_ok(runs: Seq<RunSpec>) -> bool {
    forall|k: int| 0 <= k < runs.len() ==> (#[trigger] runs[k] matches RunSpec::Image { data, .. } ==> pic_accepts(data@))
}

/// Every picture of the table's cells can be read by `docx-rs`.
pub open spec fn cells_ok(rows: Seq<Vec<ParagraphSpec>>) -> bool {
    forall|i: int, j: int| 0 <= i < rows.len() && 0 <= j < rows[i]@.len() ==> runs_ok(#[trigger] rows[i]@[j].runs@)
}

/// Every picture of the blocks can be read by `docx-rs`.
pub open spec fn blocks_ok(blocks: Seq<Block>) -> bool {
    forall|k: int|
        0 <= k < blocks.len() ==> match #[trigger] blocks[k] {
            Block::Paragraph(p) => runs_ok(p.runs@),
            Block::Table(rows) => cells_ok(rows@),
        }
}

fn render_run(r: &RunSpec) -> (res: Run)
    requires
        r matches RunSpec::Image { data, .. } ==> pic_accepts(data@),
    ensures
        run_file(res) == file_run(r@),
{
    match r {
        RunSpec::Text { text, bold, italic } => {
            let mut run = run_new();
            if *bold {
                run = run_bold(run);
            }
            if *italic {
                run = run_italic(run);
            }
            let res = run_add_text(run, text.as_str());
            assert(run_items(res) =~= seq![RunItem::Text(without_newlines(text@))]);
            res
        },
        RunSpec::Break => {
            let res = run_add_break(run_new());
            assert(run_items(res) =~= seq![RunItem::Break]);
            res
        },
        RunSpec::Image { data, size } => {
            let mut pic = pic_new(data.as_slice());
            match size {
                Some((w, h)) => {
                    pic = pic_size(pic, *w, *h);
                },
                None => {},
            }
            let res = run_add_image(run_new(), pic);
            assert(run_items(res) =~= file_run(r@).items);
            res
        },
    }
}

fn render_paragraph(p: &ParagraphSpec) -> (res: Paragraph)
    requires
        runs_ok(p.runs@),
    ensures
        para_file(res) == file_para(p@),
{
    let mut para = paragraph_new();
    let mut k: usize = 0;
    while k < p.runs.len()
        invariant
            0 <= k <= p.runs.len(),
            runs_ok(p.runs@),
            para_runs(para) == run_views(p.runs@).take(k as int).map_values(|r: RunView| file_run(r)),
            para_format(para) == (None::<Seq<char>>, false),
        decreases p.runs.len() - k,
    {
        let ghost before = para_runs(para);
        let run = render_run(&p.runs[k]);
        para = paragraph_add_run(para, run);
        assert(run_views(p.runs@).take(k + 1) =~= run_views(p.runs@).take(k as int).push(p.runs@[k as int]@));
        assert(para_runs(para) =~= run_views(p.runs@).take(k + 1).map_values(|r: RunView| file_run(r)));
        k = k + 1;
    }
    assert(run_views(p.runs@).take(k as int) =~= run_views(p.runs@));
    match &p.style {
        Some(s) => {
            para = paragraph_style(para, s.as_str());
        },
        None => {},
    }
    if p.centered {
        para = paragraph_center(para);
    }
    para
}

fn render_table(rows: &Vec<Vec<ParagraphSpec>>) -> (res: Table)
    requires
        forall|i: int, j: int|
            0 <= i < rows@.len() && 0 <= j < rows@[i]@.len() ==> runs_ok(#[trigger] rows@[i]@[j].runs@),
    ensures
        table_rows(res) == rows@.map_values(|row: Vec<ParagraphSpec>| file_row(cell_views(row@))),
{
    let mut out: Vec<TableRow> = Vec::new();
    let mut i: usize = 0;
    while i < rows.len()
        invariant
            0 <= i <= rows.len(),
            forall|i: int, j: int|
                0 <= i < rows@.len() && 0 <= j < rows@[i]@.len() ==> runs_ok(#[trigger] rows@[i]@[j].runs@),
            out@.len() == i,
            forall|x: int| 0 <= x < i ==> row_cells(#[trigger] out@[x]) == file_row(cell_views(rows@[x]@)),
        decreases rows.len() - i,
    {
        let mut cells: Vec<TableCell> = Vec::new();
        let mut j: usize = 0;
        while j < rows[i].len()
            invariant
                i < rows.len(),
                0 <= j <= rows[i as int].len(),
                forall|i: int, j: int|
                    0 <= i < rows@.len() && 0 <= j < rows@[i]@.len() ==> runs_ok(#[trigger] rows@[i]@[j].runs@),
                cells@.len() == j,
                forall|y: int| 0 <= y < j ==> cell_paras(#[trigger] cells@[y]) == seq![file_para(rows@[i as int]@[y]@)],
            decreases rows[i as int].len() - j,
        {
            let para = render_paragraph(&rows[i][j]);
            cells.push(table_cell_of(para));
            j = j + 1;
        }
        let row = table_row_new(cells);
        assert(row_cells(row) =~= file_row(cell_views(rows@[i as int]@)));
        out.push(row);
        i = i + 1;
    }
    let t = table_new(out);
    assert(table_rows(t) =~= rows@.map_values(|row: Vec<ParagraphSpec>| file_row(cell_views(row@))));
    t
}

fn paragraph_readable(p: &ParagraphSpec) -> (r: bool)
    ensures
        r == runs_ok(p.runs@),
{
    let mut k: usize = 0;
    while k < p.runs.len()
        invariant
            0 <= k <= p.runs.len(),
            forall|m: int|
                0 <= m < k ==> (#[trigger] p.runs@[m] matches RunSpec::Image { data, .. } ==> pic_accepts(data@)),
        decreases p.runs.len() - k,
    {
        match &p.runs[k] {
            RunSpec::Image { data, .. } => {
                if !picture_readable(data.as_slice()) {
                    assert(p.runs@[k as int] matches RunSpec::Image { data, .. } && !pic_accepts(data@));
                    return false;
                }
            },
            _ => {},
        }
        k = k + 1;
    }
    true
}

/// Writes the blocks as a Word file, each paragraph and table in order:
/// a zip archive (a `.docx` package) whose body is the blocks as
/// `file_blocks` writes them. It succeeds when that body weighs at most
/// `MAX_BODY_WEIGHT`.
pub fn render_docx(blocks: &Vec<Block>) -> (r: Result<Vec<u8>, String>)
    requires
        blocks_ok(blocks@),
    ensures
        r matches Ok(b) ==> zip_archive_start(b@) && word_body(b@) == file_blocks(block_views(blocks@)),
        body_weight(file_blocks(block_views(blocks@))) <= MAX_BODY_WEIGHT ==> r is Ok,
{
    let mut doc = docx_new();
    let mut i: usize = 0;
    while i < blocks.len()
        invariant
            0 <= i <= blocks.len(),
            blocks_ok(blocks@),
            docx_body(doc) == file_blocks(block_views(blocks@.take(i as int))),
        decreases blocks.len() - i,
    {
        let ghost before = docx_body(doc);
        match &blocks[i] {
            Block::Paragraph(p) => {
                doc = docx_add_paragraph(doc, render_paragraph(p));
            },
            Block::Table(rows) => {
                assert(blocks@[i as int] matches Block::Table(_));
                let t = render_table(rows);
                proof {
                    let vr = rows@.map_values(|r: Vec<ParagraphSpec>| cell_views(r@));
                    assert(table_rows(t) =~= vr.map_values(|row: Seq<ParaView>| file_row(row)));
                }
                doc = docx_add_table(doc, t);
            },
        }
        assert(blocks@.take(i + 1) =~= blocks@.take(i as int).push(blocks@[i as int]));
        assert(block_views(blocks@.take(i + 1)) =~= block_views(blocks@.take(i as int)).push(blocks@[i as int]@));
        assert(docx_body(doc) =~= file_blocks(block_views(blocks@.take(i + 1))));
        i = i + 1;
    }
    assert(blocks@.take(i as int) =~= blocks@);
    docx_pack(doc)
}

/// Whether `docx-rs` can read every picture of the blocks; when this says
/// yes, `render_docx` may be called.
pub fn pictures_readable(blocks: &Vec<Block>) -> (r: bool)
    ensures
        r == blocks_ok(blocks@),
{
    let mut i: usize = 0;
    while i < blocks.len()
        invariant
            0 <= i <= blocks.len(),
            forall|k: int|
                0 <= k < i ==> match #[trigger] blocks@[k] {
                    Block::Paragraph(p) => runs_ok(p.runs@),
                    Block::Table(rows) => forall|i: int, j: int|
                        0 <= i < rows@.len() && 0 <= j < rows@[i]@.len() ==> runs_ok(#[trigger] rows@[i]@[j].runs@),
                },
        decreases blocks.len() - i,
    {
        match &blocks[i] {
            Block::Paragraph(p) => {
                if !paragraph_readable(p) {
                    return false;
                }
            },
            Block::Table(rows) => {
                let mut a: usize = 0;
                while a < rows.len()
                    invariant
                        0 <= a <= rows.len(),
                        i < blocks.len(),
                        blocks@[i as int] == Block::Table(*rows),
                        forall|x: int, y: int|
                            0 <= x < a && 0 <= y < rows@[x]@.len() ==> runs_ok(#[trigger] rows@[x]@[y].runs@),
                    decreases rows.len() - a,
                {
                    let mut b: usize = 0;
                    while b < rows[a].len()
                        invariant
                            a < rows.len(),
                            i < blocks.len(),
                            blocks@[i as int] == Block::Table(*rows),
                            0 <= b <= rows[a as int].len(),
                            forall|x: int, y: int|
                                0 <= x < a && 0 <= y < rows@[x]@.len() ==> runs_ok(#[trigger] rows@[x]@[y].runs@),
                            forall|y: int| 0 <= y < b ==> runs_ok(#[trigger] rows@[a as int]@[y].runs@),
                        decreases rows[a as int].len() - b,
                    {
                        if !paragraph_readable(&rows[a][b]) {
                            assert(!blocks_ok(blocks@)) by {
                                if blocks_ok(blocks@) {
                                    assert(blocks@[i as int] == Block::Table(*rows));
                                    assert(cells_ok(rows@));
                                    assert(runs_ok(rows@[a as int]@[b as int].runs@));
                                }
                            }
                            return false;
                        }
                        b = b + 1;
                    }
                    a = a + 1;
                }
            },
        }
        i = i + 1;
    }
    true
}

/// Every picture among the runs can be read by `docx-rs`.
pub open spec fn run_views_ok(runs: Seq<RunView>) -> bool {
    forall|k: int| 0 <= k < runs.len() ==> (#[trigger] runs[k] matches RunView::Image(d, _) ==> pic_accepts(d))
}

/// Every picture of the table's cells can be read by `docx-rs`.
pub open spec fn cell_views_ok(rows: Seq<Seq<ParaView>>) -> bool {
    forall|i: int, j: int| 0 <= i < rows.len() && 0 <= j < rows[i].len() ==> run_views_ok(#[trigger] rows[i][j].runs)
}

/// Every picture of the blocks can be read by `docx-rs`.
pub open spec fn views_ok(blocks: Seq<BlockView>) -> bool {
    forall|k: int|
        0 <= k < blocks.len() ==> match #[trigger] blocks[k] {
            BlockView::Paragraph(p) => run_views_ok(p.runs),
            BlockView::Table(rows) => cell_views_ok(rows),
        }
}

/// Every fetched picture of an image element can be read by `docx-rs`.
pub open spec fn fetched_pictures_ok(elements: Seq<DocElement>, fetched: Seq<Option<Vec<u8>>>, n: int) -> bool {
    forall|i: int|
        0 <= i < n && #[trigger] elements[i] is Image ==> match fetched[i] {
            Some(d) => pic_accepts(d@),
            None => true,
        }
}

proof fn lemma_runs_ok_views(runs: Seq<RunSpec>)
    ensures
        runs_ok(runs) == run_views_ok(run_views(runs)),
{
    let v = run_views(runs);
    if runs_ok(runs) {
        assert forall|k: int| 0 <= k < v.len() implies (#[trigger] v[k] matches RunView::Image(d, _) ==> pic_accepts(d)) by {
            assert(v[k] == runs[k]@);
        }
    }
    if run_views_ok(v) {
        assert forall|k: int| 0 <= k < runs.len() implies (#[trigger] runs[k] matches RunSpec::Image { data, .. } ==> pic_accepts(data@)) by {
            assert(v[k] == runs[k]@);
        }
    }
}

proof fn lemma_blocks_ok_views(blocks: Seq<Block>)
    ensures
        blocks_ok(blocks) == views_ok(block_views(blocks)),
{
    let v = block_views(blocks);
    assert forall|k: int| 0 <= k < blocks.len() implies
        (match #[trigger] blocks[k] {
            Block::Paragraph(p) => runs_ok(p.runs@),
            Block::Table(rows) => cells_ok(rows@),
        }) == (match v[k] {
            BlockView::Paragraph(p) => run_views_ok(p.runs),
            BlockView::Table(rows) => cell_views_ok(rows),
        }) by {
        assert(v[k] == blocks[k]@);
        match blocks[k] {
            Block::Paragraph(p) => {
                lemma_runs_ok_views(p.runs@);
            },
            Block::Table(rows) => {
                let vr = rows@.map_values(|r: Vec<ParagraphSpec>| cell_views(r@));
                assert forall|i: int, j: int| 0 <= i < rows@.len() && 0 <= j < rows@[i]@.len() implies
                    runs_ok(#[trigger] rows@[i]@[j].runs@) == run_views_ok(vr[i][j].runs) by {
                    assert(vr[i] == cell_views(rows@[i]@));
                    assert(vr[i][j] == rows@[i]@[j]@);
                    lemma_runs_ok_views(rows@[i]@[j].runs@);
                }
                if cells_ok(rows@) {
                    assert forall|i: int, j: int| 0 <= i < vr.len() && 0 <= j < vr[i].len() implies
                        run_views_ok(#[trigger] vr[i][j].runs) by {
                        assert(vr[i] == cell_views(rows@[i]@));
                        assert(runs_ok(rows@[i]@[j].runs@));
                    }
                }
                if cell_views_ok(vr) {
                    assert forall|i: int, j: int| 0 <= i < rows@.len() && 0 <= j < rows@[i]@.len() implies
                        runs_ok(#[trigger] rows@[i]@[j].runs@) by {
                        assert(vr[i] == cell_views(rows@[i]@));
                        assert(run_views_ok(vr[i][j].runs));
                    }
                }
            },
        }
    }
}

proof fn lemma_views_ok_concat(a: Seq<BlockView>, b: Seq<BlockView>)
    ensures
        views_ok(a + b) == (views_ok(a) && views_ok(b)),
{
    let c = a + b;
    if views_ok(c) {
        assert forall|k: int| 0 <= k < a.len() implies match #[trigger] a[k] {
            BlockView::Paragraph(p) => run_views_ok(p.runs),
            BlockView::Table(rows) => cell_views_ok(rows),
        } by {
            assert(c[k] == a[k]);
        }
        assert forall|k: int| 0 <= k < b.len() implies match #[trigger] b[k] {
            BlockView::Paragraph(p) => run_views_ok(p.runs),
            BlockView::Table(rows) => cell_views_ok(rows),
        } by {
            assert(c[a.len() + k] == b[k]);
        }
    }
    if views_ok(a) && views_ok(b) {
        assert forall|k: int| 0 <= k < c.len() implies match #[trigger] c[k] {
            BlockView::Paragraph(p) => run_views_ok(p.runs),
            BlockView::Table(rows) => cell_views_ok(rows),
        } by {
            if k < a.len() {
                assert(c[k] == a[k]);
            } else {
                assert(c[k] == b[k - a.len()]);
            }
        }
    }
}

proof fn lemma_inline_ok(ev: Seq<MdEvent>)
    ensures
        run_views_ok(fold_inline(ev).0),
    decreases ev.len(),
{
    if ev.len() > 0 {
        lemma_inline_ok(ev.drop_last());
        let runs = fold_inline(ev.drop_last()).0;
        let out = fold_inline(ev).0;
        assert forall|k: int| 0 <= k < out.len() implies (#[trigger] out[k] matches RunView::Image(d, _) ==> pic_accepts(d)) by {
            if k < runs.len() {
                assert(out[k] == runs[k]);
            }
        }
    }
}

proof fn lemma_md_doc_ok(ev: Seq<MdEvent>)
    ensures
        views_ok(fold_md_doc(ev).0),
        fold_md_doc(ev).1 matches Some(p) ==> run_views_ok(p.runs),
    decreases ev.len(),
{
    if ev.len() > 0 {
        lemma_md_doc_ok(ev.drop_last());
        let st = fold_md_doc(ev.drop_last());
        let out = fold_md_doc(ev);
        assert(out == crate::agent::docx::md_doc_step(st, ev.last()));
        let (blocks, cur, b, i) = st;
        match cur {
            Some(p) => {
                assert forall|r: RunView| !(r is Image) implies #[trigger] run_views_ok(p.runs.push(r)) by {
                    let q = p.runs.push(r);
                    assert forall|k: int| 0 <= k < q.len() implies (#[trigger] q[k] matches RunView::Image(d, _) ==> pic_accepts(d)) by {
                        if k < p.runs.len() {
                            assert(q[k] == p.runs[k]);
                        }
                    }
                }
                lemma_views_ok_concat(blocks, seq![BlockView::Paragraph(p)]);
                assert(blocks.push(BlockView::Paragraph(p)) == blocks + seq![BlockView::Paragraph(p)]);
            },
            None => {},
        }
        let lone = |t: Seq<char>, b: bool, i: bool| with_run(empty_para(None), RunView::Text(t, b, i));
        assert forall|t: Seq<char>, b: bool, i: bool| #[trigger] views_ok(blocks.push(BlockView::Paragraph(lone(t, b, i)))) by {
            lemma_views_ok_concat(blocks, seq![BlockView::Paragraph(lone(t, b, i))]);
            assert(blocks.push(BlockView::Paragraph(lone(t, b, i))) == blocks + seq![BlockView::Paragraph(lone(t, b, i))]);
            assert(lone(t, b, i).runs =~= seq![RunView::Text(t, b, i)]);
        }
        assert(with_run(empty_para(None), RunView::Text("\u{2022} "@, false, false)).runs =~= seq![RunView::Text("\u{2022} "@, false, false)]);
        assert(empty_para(None).runs =~= Seq::<RunView>::empty());
        match ev.last() {
            MdEvent::Text(t) => {
                assert(views_ok(blocks.push(BlockView::Paragraph(lone(t@, b, i)))));
            },
            _ => {},
        }
    }
}

proof fn lemma_single_paragraph_ok(p: ParaView)
    ensures
        views_ok(seq![BlockView::Paragraph(p)]) == run_views_ok(p.runs),
{
    let v = seq![BlockView::Paragraph(p)];
    assert(v[0] == BlockView::Paragraph(p));
}

proof fn lemma_element_ok(e: DocElement, f: Option<Seq<u8>>)
    ensures
        views_ok(element_blocks(e, f)) == (e is Image ==> match f {
            Some(d) => pic_accepts(d),
            None => true,
        }),
{
    match e {
        DocElement::Paragraph { text, .. } => {
            lemma_inline_ok(markdown_event_seq(text@));
            lemma_single_paragraph_ok(inline_paragraph(text@));
        },
        DocElement::Heading { text, level } => {
            lemma_inline_ok(markdown_event_seq(text@));
            lemma_single_paragraph_ok(
                ParaView { style: Some(crate::agent::docx::heading_style(level as int)), ..inline_paragraph(text@) },
            );
        },
        DocElement::Table { rows, headers } => {
            let hr = header_rows(headers);
            let all = hr + data_rows(rows@);
            assert forall|i: int, j: int| 0 <= i < all.len() && 0 <= j < all[i].len() implies
                run_views_ok(#[trigger] all[i][j].runs) by {
                if i < hr.len() {
                    let h = headers.unwrap();
                    assert(all[i][j] == with_run(empty_para(None), RunView::Text(h@[j]@, true, false)));
                    assert(all[i][j].runs =~= seq![RunView::Text(h@[j]@, true, false)]);
                } else {
                    assert(all[i][j] == inline_paragraph(rows@[i - hr.len()]@[j]@));
                    lemma_inline_ok(markdown_event_seq(rows@[i - hr.len()]@[j]@));
                }
            }
            let v = element_blocks(e, f);
            assert(v[0] == BlockView::Table(all));
        },
        DocElement::Image { width, height, caption, .. } => {
            match f {
                Some(d) => {
                    let p = image_para(d, width, height, caption);
                    lemma_single_paragraph_ok(p);
                    assert(p.runs[0] matches RunView::Image(x, _) && x == d);
                    if pic_accepts(d) {
                        assert forall|k: int| 0 <= k < p.runs.len() implies
                            (#[trigger] p.runs[k] matches RunView::Image(x, _) ==> pic_accepts(x)) by {
                            if k > 0 {
                                assert(!(p.runs[k] is Image));
                            }
                        }
                    }
                },
                None => {
                    assert(element_blocks(e, f) =~= Seq::<BlockView>::empty());
                },
            }
        },
        DocElement::List { items } => {
            let v = element_blocks(e, f);
            assert forall|k: int| 0 <= k < v.len() implies match #[trigger] v[k] {
                BlockView::Paragraph(p) => run_views_ok(p.runs),
                BlockView::Table(rows) => cell_views_ok(rows),
            } by {
                let it = items@[k]@;
                lemma_inline_ok(markdown_event_seq(it));
                let runs = list_item_para(it).runs;
                assert(v[k] == BlockView::Paragraph(list_item_para(it)));
                assert forall|m: int| 0 <= m < runs.len() implies
                    (#[trigger] runs[m] matches RunView::Image(d, _) ==> pic_accepts(d)) by {
                    if m > 0 {
                        assert(runs[m] == inline_paragraph(it).runs[m - 1]);
                    }
                }
            }
        },
    }
}

proof fn lemma_doc_blocks_ok(elements: Seq<DocElement>, fetched: Seq<Option<Vec<u8>>>, n: int)
    requires
        0 <= n <= elements.len(),
        fetched.len() == elements.len(),
    ensures
        views_ok(doc_blocks(elements, fetched, n)) == fetched_pictures_ok(elements, fetched, n),
    decreases n,
{
    if n <= 0 {
        assert(doc_blocks(elements, fetched, n) =~= Seq::<BlockView>::empty());
    } else {
        lemma_doc_blocks_ok(elements, fetched, n - 1);
        let e = elements[n - 1];
        let f = fetched_view(fetched[n - 1]);
        lemma_views_ok_concat(doc_blocks(elements, fetched, n - 1), element_blocks(e, f));
        lemma_element_ok(e, f);
        let last_ok = e is Image ==> match fetched[n - 1] {
            Some(d) => pic_accepts(d@),
            None => true,
        };
        assert(fetched_pictures_ok(elements, fetched, n) == (fetched_pictures_ok(elements, fetched, n - 1) && last_ok));
    }
}

/// The Word file for the element list `elements`, with `fetched[i]` the
/// image fetched for element `i` (see `document_blocks`). `None` when a
/// fetched picture cannot be read as an image.
pub fn generate_docx_from_fetched(elements: &Vec<DocElement>, fetched: &Vec<Option<Vec<u8>>>) -> (r: Option<Result<Vec<u8>, String>>)
    requires
        fetched.len() == elements.len(),
    ensures
        r is None <==> !fetched_pictures_ok(elements@, fetched@, elements@.len() as int),
        r matches Some(Ok(b)) ==> zip_archive_start(b@) && word_body(b@) == file_blocks(
            doc_blocks(elements@, fetched@, elements@.len() as int),
        ),
        fetched_pictures_ok(elements@, fetched@, elements@.len() as int) && body_weight(
            file_blocks(doc_blocks(elements@, fetched@, elements@.len() as int)),
        ) <= MAX_BODY_WEIGHT ==> r matches Some(Ok(_)),
{
    let blocks = document_blocks(elements, fetched);
    proof {
        lemma_blocks_ok_views(blocks@);
        lemma_doc_blocks_ok(elements@, fetched@, elements@.len() as int);
    }
    if pictures_readable(&blocks) {
        Some(render_docx(&blocks))
    } else {
        None
    }
}

/// The Word file written from Markdown `content`, with the picture `image`
/// last when one was found (see `word_doc_blocks`). `None` when the picture
/// cannot be read as an image.
pub fn word_doc_bytes(content: &str, image: Option<Vec<u8>>) -> (r: Option<Result<Vec<u8>, String>>)
    ensures
        r is None <==> match image {
            Some(d) => !pic_accepts(d@),
            None => false,
        },
        r matches Some(Ok(b)) ==> zip_archive_start(b@) && word_body(b@) == file_blocks(
            word_doc_spec(content@, crate::agent::docx::fetched_view(image)),
        ),
        (match image {
            Some(d) => pic_accepts(d@),
            None => true,
        }) && body_weight(file_blocks(word_doc_spec(content@, crate::agent::docx::fetched_view(image))))
            <= MAX_BODY_WEIGHT ==> r matches Some(Ok(_)),
{
    let ghost img = crate::agent::docx::fetched_view(image);
    let blocks = word_doc_blocks(content, image);
    proof {
        lemma_blocks_ok_views(blocks@);
        let ev = markdown_event_seq(content@);
        lemma_md_doc_ok(ev);
        match img {
            Some(d) => {
                let p = with_run(empty_para(None), RunView::Image(d, None));
                lemma_views_ok_concat(fold_md_doc(ev).0, seq![BlockView::Paragraph(p)]);
                assert(fold_md_doc(ev).0.push(BlockView::Paragraph(p)) =~= fold_md_doc(ev).0 + seq![BlockView::Paragraph(p)]);
                lemma_single_paragraph_ok(p);
                assert(p.runs =~= seq![RunView::Image(d, None)]);
                assert(p.runs[0] == RunView::Image(d, None));
            },
            None => {},
        }
    }
    if pictures_readable(&blocks) {
        Some(render_docx(&blocks))
    } else {
        None
    }
}

} // verus!
