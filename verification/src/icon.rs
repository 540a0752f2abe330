//! Turning the small icon of a window into RGBA pixels.
//!
//! Reading an icon takes a chain of operating-system steps, some of which
//! hand out resources that must be given back: the two bitmaps of the icon
//! and a screen device context. [`IconExtraction`] says which step comes next
//! and takes the answer to it, so that every resource is given back whatever
//! fails; the caller carries the steps out. The arithmetic on the bitmap and
//! the reordering of the colour channels are functions of their own.

use vstd::prelude::*;

verus! {

/// Size in bytes of the bitmap header that precedes the pixel request.
pub const BITMAP_HEADER_BYTES: u32 = 40;

/// Compression code of uncompressed pixels.
pub const BI_RGB: u32 = 0;

/// Bits of one pixel as they are copied out: four channels of eight bits.
pub const BITS_PER_PIXEL: u16 = 32;

/// A bitmap of this size can be copied out: neither side is negative and
/// the byte count fits the signed 32-bit arithmetic of bitmap headers.
pub open spec fn valid_layout(width: int, height: int) -> bool {
    0 <= width && 0 <= height && width * height * 4 <= i32::MAX
}

/// Bytes of a bitmap with four bytes to the pixel.
pub open spec fn buffer_len(width: int, height: int) -> int {
    width * height * 4
}

/// Computes the size of the pixel buffer for a bitmap, or `None` where the
/// bitmap cannot be copied out.
pub fn pixel_buffer_len(width: i32, height: i32) -> (len: Option<usize>)
    ensures
        len is Some <==> valid_layout(width as int, height as int),
        len matches Some(bytes) ==> bytes == buffer_len(width as int, height as int),
{
    if width < 0 || height < 0 {
        return None;
    }
    assert(width * height >= 0) by (nonlinear_arith)
        requires
            width >= 0,
            height >= 0,
    ;
    match width.checked_mul(height) {
        Some(count) => match count.checked_mul(4) {
            Some(bytes) => Some(bytes as usize),
            None => None,
        },
        None => None,
    }
}

/// The header that asks for the pixels of a bitmap.
#[derive(Clone, Copy, Debug, PartialEq, Eq, Structural)]
pub struct DibHeader {
    /// Size of the header itself.
    pub size: u32,
    pub width: i32,
    /// Negative for rows that run from the top of the image down.
    pub height: i32,
    pub planes: u16,
    pub bit_count: u16,
    pub compression: u32,
}

/// The header for a bitmap of the given size: uncompressed pixels of 32
/// bits in one plane, first row on top.
pub open spec fn header_for(width: int, height: int) -> DibHeader {
    DibHeader {
        size: BITMAP_HEADER_BYTES,
        width: width as i32,
        height: (-height) as i32,
        planes: 1,
        bit_count: BITS_PER_PIXEL,
        compression: BI_RGB,
    }
}

/// Builds the header that asks for the pixels of a bitmap, rows top down.
pub fn dib_header(width: i32, height: i32) -> (header: DibHeader)
    requires
        height > i32::MIN,
    ensures
        header == header_for(width as int, height as int),
        header.width == width,
        header.height == -height,
{
    DibHeader {
        size: BITMAP_HEADER_BYTES,
        width,
        height: -height,
        planes: 1,
        bit_count: BITS_PER_PIXEL,
        compression: BI_RGB,
    }
}

/// Where byte `i` of the reordered buffer comes from. Within each complete
/// group of four bytes the first and the third change places; bytes behind
/// the last complete group stay.
pub open spec fn source_index(i: int, len: int) -> int {
    if i / 4 * 4 + 4 <= len {
        if i % 4 == 0 {
            i + 2
        } else if i % 4 == 2 {
            i - 2
        } else {
            i
        }
    } else {
        i
    }
}

/// The buffer with blue and red exchanged in every pixel.
pub open spec fn swizzled(pixels: Seq<u8>) -> Seq<u8> {
    Seq::new(pixels.len(), |i: int| pixels[source_index(i, pixels.len() as int)])
}

/// Reorders pixels from blue, green, red, alpha to red, green, blue, alpha,
/// in place.
pub fn bgra_to_rgba(pixels: &mut Vec<u8>)
    ensures
        final(pixels)@ == swizzled(old(pixels)@),
{
    let ghost initial = pixels@;
    let len: usize = pixels.len();
    let mut i: usize = 0;
    while len - i >= 4
        invariant
            i <= len,
            i % 4 == 0,
            pixels@.len() == len,
            initial.len() == len,
            forall|k: int| 0 <= k < i ==> pixels@[k] == initial[source_index(k, len as int)],
            forall|k: int| i <= k < len ==> pixels@[k] == initial[k],
        decreases len - i,
    {
        let blue: u8 = pixels[i];
        let red: u8 = pixels[i + 2];
        pixels.set(i, red);
        pixels.set(i + 2, blue);
        i += 4;
    }
    assert(pixels@ =~= swizzled(initial));
}

/// The image that a copied bitmap gives: its size and its pixels as RGBA.
/// `None` where the size is not valid or the buffer is not of that size.
pub open spec fn image_of(width: int, height: int, pixels: Seq<u8>) -> Option<
    (usize, usize, Seq<u8>),
> {
    if valid_layout(width, height) && pixels.len() == buffer_len(width, height) {
        Some((width as usize, height as usize, swizzled(pixels)))
    } else {
        None
    }
}

/// An image as specifications see it.
pub open spec fn image_view(image: Option<(usize, usize, Vec<u8>)>) -> Option<
    (usize, usize, Seq<u8>),
> {
    match image {
        Some((width, height, rgba)) => Some((width, height, rgba@)),
        None => None,
    }
}

/// Makes the icon image of a bitmap that was copied out as blue, green, red,
/// alpha: width, height, and the pixels as RGBA. This is the last step of
/// reading an icon; the steps that lead to it are those of
/// [`IconExtraction`].
pub fn get_icon(width: i32, height: i32, pixels: Vec<u8>) -> (image: Option<
    (usize, usize, Vec<u8>),
>)
    ensures
        image_view(image) == image_of(width as int, height as int, pixels@),
{
    match pixel_buffer_len(width, height) {
        Some(len) => {
            if pixels.len() != len {
                return None;
            }
            let mut rgba = pixels;
            bgra_to_rgba(&mut rgba);
            Some((width as usize, height as usize, rgba))
        },
        None => None,
    }
}

/// One step of reading an icon. The caller carries it out and answers with
/// an [`IconReply`].
#[derive(Clone, Copy, Debug, PartialEq, Eq, Structural)]
pub enum IconStep {
    /// Ask the window itself for its small icon.
    AskWindow,
    /// Ask the window's class for its default small icon.
    AskClass,
    /// Read what the icon consists of. Success hands out its two bitmaps.
    ReadIconInfo { icon: usize },
    /// Open a device context of the screen. Success hands it out.
    OpenScreenContext,
    /// Measure the colour bitmap of the icon.
    MeasureBitmap,
    /// Copy the pixels of the colour bitmap into a zeroed buffer of `len`
    /// bytes, as `header` describes them.
    CopyPixels { header: DibHeader, len: usize },
    /// Give the device context back.
    CloseScreenContext,
    /// Delete the two bitmaps of the icon.
    DeleteBitmaps,
    /// Nothing is left to do.
    Finished,
}

/// The answer to a step.
#[derive(Debug)]
pub enum IconReply {
    /// An icon handle; zero where there is none.
    Handle(usize),
    /// The step went through.
    Done,
    /// The size of the measured bitmap.
    Size { width: i32, height: i32 },
    /// The buffer after the copy.
    Pixels(Vec<u8>),
    /// The step failed.
    Failed,
}

/// The step that follows `step` once `reply` has come in. A reply that does
/// not answer the step counts as its failure. After a failure the
/// extraction goes on with giving back what it holds.
pub open spec fn next_step(step: IconStep, reply: IconReply) -> IconStep {
    match step {
        IconStep::AskWindow => match reply {
            IconReply::Handle(icon) if icon != 0 => IconStep::ReadIconInfo { icon },
            _ => IconStep::AskClass,
        },
        IconStep::AskClass => match reply {
            IconReply::Handle(icon) if icon != 0 => IconStep::ReadIconInfo { icon },
            _ => IconStep::Finished,
        },
        IconStep::ReadIconInfo { .. } => match reply {
            IconReply::Done => IconStep::OpenScreenContext,
            _ => IconStep::Finished,
        },
        IconStep::OpenScreenContext => match reply {
            IconReply::Done => IconStep::MeasureBitmap,
            _ => IconStep::DeleteBitmaps,
        },
        IconStep::MeasureBitmap => match reply {
            IconReply::Size { width, height } if valid_layout(width as int, height as int) => {
                IconStep::CopyPixels {
                    header: header_for(width as int, height as int),
                    len: buffer_len(width as int, height as int) as usize,
                }
            },
            _ => IconStep::CloseScreenContext,
        },
        IconStep::CopyPixels { .. } => IconStep::CloseScreenContext,
        IconStep::CloseScreenContext => IconStep::DeleteBitmaps,
        IconStep::DeleteBitmaps => IconStep::Finished,
        IconStep::Finished => IconStep::Finished,
    }
}

/// The image that the extraction holds once `reply` has come in: the reply
/// to the copy decides it, and no later reply changes it.
pub open spec fn next_image(
    step: IconStep,
    image: Option<(usize, usize, Seq<u8>)>,
    reply: IconReply,
) -> Option<(usize, usize, Seq<u8>)> {
    match (step, reply) {
        (IconStep::CopyPixels { header, .. }, IconReply::Pixels(pixels)) => image_of(
            header.width as int,
            -(header.height as int),
            pixels@,
        ),
        _ => image,
    }
}

/// Whether the caller holds the two bitmaps of the icon at `step`.
pub open spec fn holds_bitmaps(step: IconStep) -> bool {
    match step {
        IconStep::OpenScreenContext
        | IconStep::MeasureBitmap
        | IconStep::CopyPixels { .. }
        | IconStep::CloseScreenContext
        | IconStep::DeleteBitmaps => true,
        _ => false,
    }
}

/// Whether the caller holds the device context at `step`.
pub open spec fn holds_context(step: IconStep) -> bool {
    match step {
        IconStep::MeasureBitmap | IconStep::CopyPixels { .. } | IconStep::CloseScreenContext => true,
        _ => false,
    }
}

/// Most steps that are still to come from `step` on.
pub open spec fn steps_left(step: IconStep) -> nat {
    match step {
        IconStep::AskWindow => 8,
        IconStep::AskClass => 7,
        IconStep::ReadIconInfo { .. } => 6,
        IconStep::OpenScreenContext => 5,
        IconStep::MeasureBitmap => 4,
        IconStep::CopyPixels { .. } => 3,
        IconStep::CloseScreenContext => 2,
        IconStep::DeleteBitmaps => 1,
        IconStep::Finished => 0,
    }
}

/// A copy request asks for the pixels of a bitmap of valid size.
pub open spec fn well_formed_step(step: IconStep) -> bool {
    step matches IconStep::CopyPixels { header, len } ==> {
        &&& header.height > i32::MIN
        &&& valid_layout(header.width as int, -(header.height as int))
        &&& header == header_for(header.width as int, -(header.height as int))
        &&& len == buffer_len(header.width as int, -(header.height as int))
    }
}

/// The reading of one window's icon, step by step.
pub struct IconExtraction {
    step: IconStep,
    image: Option<(usize, usize, Vec<u8>)>,
}

impl IconExtraction {
    #[verifier::type_invariant]
    spec fn inv(self) -> bool {
        &&& well_formed_step(self.step)
        &&& self.image is Some ==> steps_left(self.step) <= 2
    }

    /// The step that is to be carried out next.
    pub closed spec fn pending(&self) -> IconStep {
        self.step
    }

    /// The image read so far.
    pub closed spec fn image(&self) -> Option<(usize, usize, Seq<u8>)> {
        image_view(self.image)
    }

    /// Starts reading an icon: the first step asks the window.
    pub fn new() -> (extraction: IconExtraction)
        ensures
            extraction.pending() == IconStep::AskWindow,
            extraction.image() is None,
    {
        IconExtraction { step: IconStep::AskWindow, image: None }
    }

    /// Returns the step to carry out next.
    pub fn step(&self) -> (step: IconStep)
        ensures
            step == self.pending(),
            well_formed_step(step),
    {
        proof {
            use_type_invariant(self);
        }
        self.step
    }

    /// Takes the answer to the pending step and moves on.
    pub fn advance(self, reply: IconReply) -> (next: IconExtraction)
        ensures
            next.pending() == next_step(self.pending(), reply),
            next.image() == next_image(self.pending(), self.image(), reply),
    {
        proof {
            use_type_invariant(&self);
        }
        let IconExtraction { step, image } = self;
        match step {
            IconStep::AskWindow => match reply {
                IconReply::Handle(icon) => {
                    if icon != 0 {
                        IconExtraction { step: IconStep::ReadIconInfo { icon }, image }
                    } else {
                        IconExtraction { step: IconStep::AskClass, image }
                    }
                },
                _ => IconExtraction { step: IconStep::AskClass, image },
            },
            IconStep::AskClass => match reply {
                IconReply::Handle(icon) => {
                    if icon != 0 {
                        IconExtraction { step: IconStep::ReadIconInfo { icon }, image }
                    } else {
                        IconExtraction { step: IconStep::Finished, image }
                    }
                },
                _ => IconExtraction { step: IconStep::Finished, image },
            },
            IconStep::ReadIconInfo { .. } => match reply {
                IconReply::Done => IconExtraction { step: IconStep::OpenScreenContext, image },
                _ => IconExtraction { step: IconStep::Finished, image },
            },
            IconStep::OpenScreenContext => match reply {
                IconReply::Done => IconExtraction { step: IconStep::MeasureBitmap, image },
                _ => IconExtraction { step: IconStep::DeleteBitmaps, image },
            },
            IconStep::MeasureBitmap => match reply {
                IconReply::Size { width, height } => match pixel_buffer_len(width, height) {
                    Some(len) => IconExtraction {
                        step: IconStep::CopyPixels { header: dib_header(width, height), len },
                        image,
                    },
                    None => IconExtraction { step: IconStep::CloseScreenContext, image },
                },
                _ => IconExtraction { step: IconStep::CloseScreenContext, image },
            },
            IconStep::CopyPixels { header, .. } => match reply {
                IconReply::Pixels(pixels) => IconExtraction {
                    step: IconStep::CloseScreenContext,
                    image: get_icon(header.width, -header.height, pixels),
                },
                _ => IconExtraction { step: IconStep::CloseScreenContext, image },
            },
            IconStep::CloseScreenContext => IconExtraction { step: IconStep::DeleteBitmaps, image },
            IconStep::DeleteBitmaps => IconExtraction { step: IconStep::Finished, image },
            IconStep::Finished => IconExtraction { step: IconStep::Finished, image },
        }
    }

    /// Hands out the image. There is one only when the extraction has
    /// finished, so never while a resource is still held.
    pub fn finish(self) -> (image: Option<(usize, usize, Vec<u8>)>)
        ensures
            image_view(image) == if self.pending() == IconStep::Finished {
                self.image()
            } else {
                None
            },
    {
        match self.step {
            IconStep::Finished => self.image,
            _ => None,
        }
    }
}

/// Every reply brings the extraction nearer to its end, which it reaches
/// after eight replies at most, and where it stays.
pub proof fn law_icon_steps_run_out(step: IconStep, reply: IconReply)
    ensures
        step != IconStep::Finished ==> steps_left(next_step(step, reply)) < steps_left(step),
        step == IconStep::Finished ==> next_step(step, reply) == IconStep::Finished,
        steps_left(step) <= 8,
        steps_left(step) == 0 <==> step == IconStep::Finished,
{
}

/// What was handed out is given back on every path. The bitmaps are held
/// from the reply that hands them out until the step that deletes them, the
/// device context from the reply that opens it until the step that closes
/// it, and the extraction finishes with neither.
pub proof fn law_icon_resources_are_given_back(step: IconStep, reply: IconReply)
    ensures
        holds_bitmaps(next_step(step, reply)) == (match step {
            IconStep::ReadIconInfo { .. } => reply is Done,
            IconStep::DeleteBitmaps => false,
            _ => holds_bitmaps(step),
        }),
        holds_context(next_step(step, reply)) == (match step {
            IconStep::OpenScreenContext => reply is Done,
            IconStep::CloseScreenContext => false,
            _ => holds_context(step),
        }),
        !holds_bitmaps(IconStep::Finished),
        !holds_context(IconStep::Finished),
        !holds_bitmaps(IconStep::AskWindow),
        !holds_context(IconStep::AskWindow),
{
}

/// A window that has no icon of its own and whose class has none gives no
/// image, and nothing is acquired on the way.
pub proof fn law_no_icon_is_no_failure(first: IconReply, second: IconReply)
    requires
        first == IconReply::Handle(0),
        second == IconReply::Handle(0),
    ensures
        next_step(next_step(IconStep::AskWindow, first), second) == IconStep::Finished,
        next_image(
            next_step(IconStep::AskWindow, first),
            next_image(IconStep::AskWindow, None, first),
            second,
        ) is None,
{
}

/// The step and the image that an extraction has reached when the replies
/// have come in, in order.
pub open spec fn extraction_after(replies: Seq<IconReply>) -> (
    IconStep,
    Option<(usize, usize, Seq<u8>)>,
)
    decreases replies.len(),
{
    if replies.len() == 0 {
        (IconStep::AskWindow, None)
    } else {
        let (step, image) = extraction_after(replies.drop_last());
        (next_step(step, replies.last()), next_image(step, image, replies.last()))
    }
}

/// Where every step goes through, the icon of the window is read in seven
/// steps: the bitmap is measured, its pixels are copied out and reordered,
/// and what was acquired is given back before the image is handed out. The
/// image has the size that was measured and the pixels that were copied,
/// as RGBA. What the two steps that give back answer changes nothing.
pub proof fn law_icon_is_read(
    icon: usize,
    width: i32,
    height: i32,
    pixels: Vec<u8>,
    closed: IconReply,
    deleted: IconReply,
)
    requires
        icon != 0,
        valid_layout(width as int, height as int),
        pixels@.len() == buffer_len(width as int, height as int),
    ensures
        extraction_after(
            seq![
                IconReply::Handle(icon),
                IconReply::Done,
                IconReply::Done,
                IconReply::Size { width, height },
                IconReply::Pixels(pixels),
                closed,
                deleted,
            ],
        ) == (IconStep::Finished, Some((width as usize, height as usize, swizzled(pixels@)))),
        extraction_after(
            seq![
                IconReply::Handle(icon),
                IconReply::Done,
                IconReply::Done,
                IconReply::Size { width, height },
            ],
        ).0 == (IconStep::CopyPixels {
            header: header_for(width as int, height as int),
            len: buffer_len(width as int, height as int) as usize,
        }),
{
    let r1 = seq![IconReply::Handle(icon)];
    let r2 = r1.push(IconReply::Done);
    let r3 = r2.push(IconReply::Done);
    let r4 = r3.push(IconReply::Size { width, height });
    let r5 = r4.push(IconReply::Pixels(pixels));
    let r6 = r5.push(closed);
    let r7 = r6.push(deleted);
    assert(r1.drop_last() == Seq::<IconReply>::empty());
    assert(r2.drop_last() == r1);
    assert(r3.drop_last() == r2);
    assert(r4.drop_last() == r3);
    assert(r5.drop_last() == r4);
    assert(r6.drop_last() == r5);
    assert(r7.drop_last() == r6);
    assert(extraction_after(r1).0 == IconStep::ReadIconInfo { icon }) by {
        reveal_with_fuel(extraction_after, 2);
    }
    assert(extraction_after(r2).0 == IconStep::OpenScreenContext);
    assert(extraction_after(r3).0 == IconStep::MeasureBitmap);
    assert(extraction_after(r4).0 == IconStep::CopyPixels {
        header: header_for(width as int, height as int),
        len: buffer_len(width as int, height as int) as usize,
    });
    assert(extraction_after(r4).1 is None);
    assert(extraction_after(r5) == (
        IconStep::CloseScreenContext,
        Some((width as usize, height as usize, swizzled(pixels@))),
    ));
    assert(extraction_after(r6).0 == IconStep::DeleteBitmaps);
    assert(extraction_after(r7).0 == IconStep::Finished);
    assert(r7 == seq![
        IconReply::Handle(icon),
        IconReply::Done,
        IconReply::Done,
        IconReply::Size { width, height },
        IconReply::Pixels(pixels),
        closed,
        deleted,
    ]);
    assert(r4 == seq![
        IconReply::Handle(icon),
        IconReply::Done,
        IconReply::Done,
        IconReply::Size { width, height },
    ]);
}

} // verus!
