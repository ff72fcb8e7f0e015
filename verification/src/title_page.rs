//! The title page: the name of the game and two lines that say what the
//! keys do.

use vstd::prelude::*;
use crate::loops::visual::rectangle;
use crate::loops::{Effect, InputMsg, Instance, SystemKey, VisualMsg};
use crate::pages::{Page, PageBuilder, PageContext, PageError, PageId, PageTransition};

verus! {

/// Longest line that the title page draws.
pub const MAX_LINE: usize = 1000;

/// The rectangle that stands for letter `i` of a line of `count` letters of
/// the given size, centred on `centre_x` at height `y`. Lengths are in
/// thousandths of a pixel.
pub open spec fn letter(centre_x: int, y: int, count: int, size: int, color: Seq<u8>, i: int)
    -> Instance {
    let spacing = size * 6 / 10;
    rectangle(centre_x - (count * spacing) / 2 + i * spacing, y, size / 2, size * 7 / 10, color)
}

/// The rectangles of a line, one for each letter.
pub open spec fn line(centre_x: int, y: int, count: int, size: int, color: Seq<u8>) -> Seq<
    Instance,
> {
    Seq::new(count as nat, |i: int| letter(centre_x, y, count, size, color, i))
}

/// The title screen for a window of the given size in pixels: the title
/// above the centre, the two hints below it.
pub open spec fn title_screen(width: u32, height: u32) -> Seq<Instance> {
    let centre_x = width * 500;
    let centre_y = height * 500;
    line(centre_x, centre_y - 100_000, 12, 40_000, seq![80u8, 90u8, 100u8, 100u8]) + line(
        centre_x,
        centre_y + 50_000,
        26,
        20_000,
        seq![70u8, 70u8, 70u8, 100u8],
    ) + line(centre_x, centre_y + 90_000, 17, 20_000, seq![70u8, 70u8, 70u8, 100u8])
}

/// The title page.
pub struct TitlePage {
    /// The rectangles of the frame being built.
    instance_buffer: Vec<Instance>,
}

impl TitlePage {
    /// The rectangles of the frame being built.
    pub closed spec fn buffered(&self) -> Seq<Instance> {
        self.instance_buffer@
    }

    /// A title page with no frame begun.
    pub fn new() -> (page: Self)
        ensures
            page.buffered() == Seq::<Instance>::empty(),
    {
        TitlePage { instance_buffer: Vec::new() }
    }

    /// Appends the rectangles of a line of text to the frame.
    fn render_pixel_text(
        &mut self,
        centre_x: i64,
        y: i64,
        text: &str,
        size: i64,
        color: [u8; 4],
    )
        requires
            text@.len() <= MAX_LINE,
            0 <= size <= 100_000,
            -0x1_0000_0000_0000 <= centre_x <= 0x1_0000_0000_0000,
        ensures
            final(self).instance_buffer@ == old(self).instance_buffer@ + line(
                centre_x as int,
                y as int,
                text@.len() as int,
                size as int,
                color@,
            ),
    {
        let count = text.unicode_len();
        let spacing: i64 = size * 6 / 10;
        assert(0 <= count * spacing <= 1000 * 60_000) by (nonlinear_arith)
            requires
                0 <= count <= 1000,
                0 <= spacing <= 60_000,
        ;
        let start_x: i64 = centre_x - ((count as i64) * spacing) / 2;
        let ghost before = self.instance_buffer@;
        let mut i: usize = 0;
        while i < count
            invariant
                i <= count,
                count == text@.len(),
                count <= MAX_LINE,
                0 <= size <= 100_000,
                spacing == size * 6 / 10,
                start_x == centre_x - (count * spacing) / 2,
                -0x1_0000_0000_0000 <= centre_x <= 0x1_0000_0000_0000,
                self.instance_buffer@.len() == before.len() + i,
                forall|j: int| 0 <= j < before.len() ==> self.instance_buffer@[j] == before[j],
                forall|j: int|
                    0 <= j < i ==> self.instance_buffer@[before.len() + j] == letter(
                        centre_x as int,
                        y as int,
                        count as int,
                        size as int,
                        color@,
                        j,
                    ),
            decreases count - i,
        {
            assert(0 <= i * spacing <= 1000 * 60_000) by (nonlinear_arith)
                requires
                    0 <= i <= 1000,
                    0 <= spacing <= 60_000,
            ;
            assert(0 <= count * spacing <= 1000 * 60_000) by (nonlinear_arith)
                requires
                    0 <= count <= 1000,
                    0 <= spacing <= 60_000,
            ;
            let x: i64 = start_x + (i as i64) * spacing;
            self.instance_buffer.push(
                Instance {
                    pos: [x, y],
                    size: [size / 2, size * 7 / 10],
                    color: [color[0], color[1], color[2], color[3]],
                },
            );
            i += 1;
        }
        assert(self.instance_buffer@ =~= before + line(
            centre_x as int,
            y as int,
            text@.len() as int,
            size as int,
            color@,
        ));
    }

    /// The rectangles of the title screen for a window of the given size.
    pub fn render_title_screen(&mut self, window_size: (u32, u32)) -> (instances: Vec<Instance>)
        ensures
            instances@ == title_screen(window_size.0, window_size.1),
    {
        self.instance_buffer = Vec::new();
        proof {
            reveal_strlit("NEBULA TUNES");
            reveal_strlit("Press ENTER to select file");
            reveal_strlit("Press ESC to exit");
        }
        let centre_x: i64 = (window_size.0 as i64) * 500;
        let centre_y: i64 = (window_size.1 as i64) * 500;
        self.render_pixel_text(centre_x, centre_y - 100_000, "NEBULA TUNES", 40_000, [80, 90, 100, 100]);
        self.render_pixel_text(
            centre_x,
            centre_y + 50_000,
            "Press ENTER to select file",
            20_000,
            [70, 70, 70, 100],
        );
        self.render_pixel_text(
            centre_x,
            centre_y + 90_000,
            "Press ESC to exit",
            20_000,
            [70, 70, 70, 100],
        );
        let mut instances: Vec<Instance> = Vec::new();
        instances.append(&mut self.instance_buffer);
        assert(instances@ =~= title_screen(window_size.0, window_size.1));
        instances
    }
}

/// What the title page does on an input: whether it consumes the input, and
/// the message that it sends. Enter asks for a chart file; nothing else is
/// consumed.
pub open spec fn title_input(msg: InputMsg) -> (bool, Option<Effect>) {
    match msg {
        InputMsg::SystemKey(SystemKey::Enter) => (
            true,
            Some(Effect::Visual(VisualMsg::RequestFileOpen)),
        ),
        _ => (false, None),
    }
}

/// Decides what the title page does on an input.
pub fn title_page_input(msg: &InputMsg) -> (reaction: (bool, Option<Effect>))
    ensures
        reaction == title_input(*msg),
{
    match msg {
        InputMsg::SystemKey(SystemKey::Enter) => (
            true,
            Some(Effect::Visual(VisualMsg::RequestFileOpen)),
        ),
        _ => (false, None),
    }
}

impl Page for TitlePage {
    open spec fn identity(&self) -> PageId {
        PageId::Title
    }

    fn id(&self) -> (id: PageId)
        ensures
            id == PageId::Title,
    {
        PageId::Title
    }

    fn on_update(&mut self, dt: u64, ctx: &mut PageContext) -> (r: Result<
        PageTransition,
        PageError,
    >)
        ensures
            r == Ok::<PageTransition, PageError>(PageTransition::Stay),
    {
        Ok(PageTransition::Stay)
    }

    fn on_render(&mut self, ctx: &mut PageContext) -> (instances: Vec<Instance>)
        ensures
            instances@ == title_screen(old(ctx).window_size.0, old(ctx).window_size.1),
    {
        self.render_title_screen(ctx.window_size)
    }

    fn on_input(&mut self, msg: &InputMsg, ctx: &mut PageContext) -> (r: Result<bool, PageError>)
        ensures
            r == Ok::<bool, PageError>(title_input(*msg).0),
            final(ctx).outbox@ == match title_input(*msg).1 {
                Some(effect) => old(ctx).outbox@.push(effect),
                None => old(ctx).outbox@,
            },
    {
        let (consumed, effect) = title_page_input(msg);
        match effect {
            Some(effect) => {
                ctx.outbox.push(effect);
            },
            None => {},
        }
        Ok(consumed)
    }
}

/// Builds title pages.
pub struct TitlePageBuilder;

impl TitlePageBuilder {
    /// A builder of title pages.
    pub fn new() -> (builder: Self) {
        TitlePageBuilder
    }

    /// Builds the one page that the builder is for.
    pub fn build_once(self) -> (page: Box<dyn Page>)
        ensures
            page.identity() == PageId::Title,
    {
        return Box::new(TitlePage::new());
    }
}

impl PageBuilder for TitlePageBuilder {
    open spec fn builds(&self) -> PageId {
        PageId::Title
    }

    fn build(&self) -> (built: Result<Box<dyn Page>, PageError>)
        ensures
            match built {
                Ok(page) => page.identity() == PageId::Title,
                Err(_) => false,
            },
    {
        Ok(Box::new(TitlePage::new()))
    }

    fn page_id(&self) -> (id: PageId)
        ensures
            id == PageId::Title,
    {
        PageId::Title
    }
}

} // verus!
