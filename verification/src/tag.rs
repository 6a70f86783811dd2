//! Panel profiles and the command frames derived from them.
//!
//! A profile fixes everything that differs between the supported panels: the
//! identity byte, the raster size, the number of image bytes carried by one
//! data frame and the header an image file must start with. Every frame the
//! protocol sends is a function of the profile and, for data frames, of one
//! chunk of the image.

use vstd::prelude::*;
use crate::numeral::{decimal, decimal_bytes};

verus! {

/// Tag byte that opens every command frame.
pub const CMD: u8 = 0xCD;

/// Number of bytes that precede the payload of a data frame.
pub const PREAMBLE_LEN: usize = 3;

/// Number of bytes an image file starts with before the raster.
pub const HEADER_LEN: usize = 11;

/// Number of frames in the setup sequence.
pub const SETUP_LEN: usize = 8;

/// The byte with every bit of `b` flipped.
///
/// The panel stores pixels with the opposite polarity of the image file, so
/// this is what goes on the wire for the image byte `b`.
pub open spec fn complement(b: u8) -> u8 {
    (255 - b) as u8
}

/// `complement` applied to every byte of `bytes`.
pub open spec fn complement_all(bytes: Seq<u8>) -> Seq<u8> {
    Seq::new(bytes.len(), |k: int| complement(bytes[k]))
}

/// Flips every bit of `b`.
pub fn invert(b: u8) -> (r: u8)
    ensures
        r == complement(b),
        r == 0xFF ^ b,
{
    assert(!b == (255 - b) as u8) by (bit_vector);
    assert(!b == 0xFF ^ b) by (bit_vector);
    !b
}

/// Flipping the bits of a byte twice gives the byte back, and so does
/// flipping every byte of a sequence twice: what the panel receives,
/// flipped once more, is the image.
pub proof fn lemma_complement_is_involution(b: u8, bytes: Seq<u8>)
    ensures
        complement(complement(b)) == b,
        complement(b) == 0xFF ^ b,
        complement_all(bytes).len() == bytes.len(),
        complement_all(complement_all(bytes)) == bytes,
{
    assert((255 - b) as u8 == 0xFF ^ b) by (bit_vector);
    assert(complement_all(complement_all(bytes)) =~= bytes);
}

/// The supported panels, named by their diagonal in inches.
#[derive(Clone, Copy, Debug, PartialEq, Eq, Structural)]
pub enum TagSize {
    TwoNine,
    FourTwo,
    SevenFive,
}

impl TagSize {
    pub open spec fn spec_index(&self) -> u8 {
        match self {
            TagSize::TwoNine => 0,
            TagSize::FourTwo => 1,
            TagSize::SevenFive => 2,
        }
    }

    /// Position of this panel in the size selector.
    #[verifier::when_used_as_spec(spec_index)]
    pub fn index(&self) -> (r: u8)
        ensures
            r == self.spec_index(),
    {
        match self {
            TagSize::TwoNine => 0,
            TagSize::FourTwo => 1,
            TagSize::SevenFive => 2,
        }
    }

    /// The panel at position `index` of the size selector, if there is one.
    pub fn from_index(index: u8) -> (r: Option<TagSize>)
        ensures
            index >= 3 <==> r is None,
            r matches Some(t) ==> t.spec_index() == index,
    {
        if index == 0 {
            Some(TagSize::TwoNine)
        } else if index == 1 {
            Some(TagSize::FourTwo)
        } else if index == 2 {
            Some(TagSize::SevenFive)
        } else {
            None
        }
    }

    pub open spec fn spec_text(&self) -> Seq<char> {
        match self {
            TagSize::TwoNine => seq!['2', '.', '9', '"'],
            TagSize::FourTwo => seq!['4', '.', '2', '"'],
            TagSize::SevenFive => seq!['7', '.', '5', '"'],
        }
    }

    /// Label shown for this panel in the size selector.
    pub fn text(&self) -> (r: &'static str)
        ensures
            r@ == self.spec_text(),
    {
        proof {
            reveal_strlit("2.9\"");
            reveal_strlit("4.2\"");
            reveal_strlit("7.5\"");
        }
        match self {
            TagSize::TwoNine => {
                let r: &'static str = "2.9\"";
                assert(r@ =~= self.spec_text());
                r
            },
            TagSize::FourTwo => {
                let r: &'static str = "4.2\"";
                assert(r@ =~= self.spec_text());
                r
            },
            TagSize::SevenFive => {
                let r: &'static str = "7.5\"";
                assert(r@ =~= self.spec_text());
                r
            },
        }
    }

    pub open spec fn spec_id(&self) -> u8 {
        match self {
            TagSize::TwoNine => 0x07,
            TagSize::FourTwo => 0x0A,
            TagSize::SevenFive => 0x0E,
        }
    }

    /// Identity byte that selects this panel on the device.
    #[verifier::when_used_as_spec(spec_id)]
    pub fn id(&self) -> (r: u8)
        ensures
            r == self.spec_id(),
    {
        match self {
            TagSize::TwoNine => 0x07,
            TagSize::FourTwo => 0x0A,
            TagSize::SevenFive => 0x0E,
        }
    }

    pub open spec fn spec_width(&self) -> usize {
        match self {
            TagSize::TwoNine => 128,
            TagSize::FourTwo => 400,
            TagSize::SevenFive => 800,
        }
    }

    /// Raster width in pixels.
    #[verifier::when_used_as_spec(spec_width)]
    pub fn width(&self) -> (r: usize)
        ensures
            r == self.spec_width(),
    {
        match self {
            TagSize::TwoNine => 128,
            TagSize::FourTwo => 400,
            TagSize::SevenFive => 800,
        }
    }

    pub open spec fn spec_height(&self) -> usize {
        match self {
            TagSize::TwoNine => 296,
            TagSize::FourTwo => 300,
            TagSize::SevenFive => 480,
        }
    }

    /// Raster height in pixels.
    #[verifier::when_used_as_spec(spec_height)]
    pub fn height(&self) -> (r: usize)
        ensures
            r == self.spec_height(),
    {
        match self {
            TagSize::TwoNine => 296,
            TagSize::FourTwo => 300,
            TagSize::SevenFive => 480,
        }
    }

    pub open spec fn spec_chunk_size(&self) -> u8 {
        match self {
            TagSize::TwoNine => 16,
            TagSize::FourTwo => 100,
            TagSize::SevenFive => 120,
        }
    }

    /// Number of image bytes carried by one data frame.
    #[verifier::when_used_as_spec(spec_chunk_size)]
    pub fn chunk_size(&self) -> (r: u8)
        ensures
            r == self.spec_chunk_size(),
    {
        match self {
            TagSize::TwoNine => 16,
            TagSize::FourTwo => 100,
            TagSize::SevenFive => 120,
        }
    }

    /// The bytes an image for this panel starts with: the header of a
    /// binary bitmap of exactly the panel's width and height.
    pub open spec fn spec_header(&self) -> Seq<u8> {
        match self {
            TagSize::TwoNine => seq![
                0x50u8, 0x34, 0x0A, 0x31, 0x32, 0x38, 0x20, 0x32, 0x39, 0x36, 0x0A,
            ],
            TagSize::FourTwo => seq![
                0x50u8, 0x34, 0x0A, 0x34, 0x30, 0x30, 0x20, 0x33, 0x30, 0x30, 0x0A,
            ],
            TagSize::SevenFive => seq![
                0x50u8, 0x34, 0x0A, 0x38, 0x30, 0x30, 0x20, 0x34, 0x38, 0x30, 0x0A,
            ],
        }
    }

    /// The header an image file must start with to be written to this panel.
    pub fn header(&self) -> (r: Vec<u8>)
        ensures
            r@ == self.spec_header(),
            r@.len() == HEADER_LEN,
    {
        let r: Vec<u8> = match self {
            TagSize::TwoNine => vec![
                0x50u8, 0x34, 0x0A, 0x31, 0x32, 0x38, 0x20, 0x32, 0x39, 0x36, 0x0A,
            ],
            TagSize::FourTwo => vec![
                0x50u8, 0x34, 0x0A, 0x34, 0x30, 0x30, 0x20, 0x33, 0x30, 0x30, 0x0A,
            ],
            TagSize::SevenFive => vec![
                0x50u8, 0x34, 0x0A, 0x38, 0x30, 0x30, 0x20, 0x34, 0x38, 0x30, 0x0A,
            ],
        };
        assert(r@ =~= self.spec_header());
        r
    }

    /// The eight frames that prepare the device for this panel, in the order
    /// in which they are sent.
    pub open spec fn spec_setup(&self) -> Seq<Seq<u8>> {
        seq![
            seq![CMD, 0x0D],
            seq![CMD, 0x00, self.spec_id()],
            seq![CMD, 0x01],
            seq![CMD, 0x02],
            seq![CMD, 0x03],
            seq![CMD, 0x05],
            seq![CMD, 0x06],
            seq![CMD, 0x07, 0x00],
        ]
    }

    /// The setup sequence: reset, panel selection, three bare commands, two
    /// mode commands and a command with a zero argument.
    pub fn setup(&self) -> (r: Vec<Vec<u8>>)
        ensures
            r.deep_view() == self.spec_setup(),
            r@.len() == SETUP_LEN,
    {
        let r: Vec<Vec<u8>> = vec![
            vec![CMD, 0x0D],
            vec![CMD, 0x00, self.id()],
            vec![CMD, 0x01],
            vec![CMD, 0x02],
            vec![CMD, 0x03],
            vec![CMD, 0x05],
            vec![CMD, 0x06],
            vec![CMD, 0x07, 0x00],
        ];
        assert(r.deep_view() =~~= self.spec_setup());
        r
    }

    /// The frame at position `index` of the setup sequence.
    pub fn setup_frame(&self, index: usize) -> (r: Vec<u8>)
        requires
            index < SETUP_LEN,
        ensures
            r@ == self.spec_setup()[index as int],
    {
        let mut frames: Vec<Vec<u8>> = self.setup();
        assert(frames.deep_view()[index as int] == frames@[index as int]@);
        frames.remove(index)
    }

    /// The three bytes in front of the payload of a data frame: the command
    /// tag, the data opcode and the payload length.
    pub open spec fn spec_preamble(&self) -> Seq<u8> {
        seq![CMD, 0x08, self.spec_chunk_size()]
    }

    /// The frame that carries `chunk`: the preamble, then every byte of the
    /// chunk with its bits flipped.
    pub open spec fn spec_data_frame(&self, chunk: Seq<u8>) -> Seq<u8> {
        self.spec_preamble() + complement_all(chunk)
    }

    /// A data frame with a blank payload, and the offset at which the
    /// payload starts.
    pub fn buffer(&self) -> (r: (Vec<u8>, usize))
        ensures
            r.1 == PREAMBLE_LEN,
            r.0@ == self.spec_preamble() + Seq::new(self.spec_chunk_size() as nat, |k: int| 0u8),
            r.0@.len() == PREAMBLE_LEN + self.spec_chunk_size(),
    {
        let chunk_size: u8 = self.chunk_size();
        let mut buffer: Vec<u8> = vec![CMD, 0x08, chunk_size];
        let mut k: u8 = 0;
        while k < chunk_size
            invariant
                k <= chunk_size,
                chunk_size == self.spec_chunk_size(),
                buffer@ == self.spec_preamble() + Seq::new(k as nat, |j: int| 0u8),
            decreases chunk_size - k,
        {
            buffer.push(0);
            k = k + 1;
            assert(buffer@ =~= self.spec_preamble() + Seq::new(k as nat, |j: int| 0u8));
        }
        (buffer, PREAMBLE_LEN)
    }

    /// The data frame for one chunk of the image.
    pub fn data_frame(&self, chunk: &[u8]) -> (r: Vec<u8>)
        requires
            chunk@.len() == self.spec_chunk_size(),
        ensures
            r@ == self.spec_data_frame(chunk@),
            r@.len() == PREAMBLE_LEN + chunk@.len(),
            forall|k: int| 0 <= k < chunk@.len() ==> r@[PREAMBLE_LEN + k] == 0xFF ^ chunk@[k],
    {
        let (mut frame, preamble) = self.buffer();
        let n: usize = chunk.len();
        let mut k: usize = 0;
        while k < n
            invariant
                k <= n,
                n == chunk@.len(),
                n == self.spec_chunk_size(),
                preamble == PREAMBLE_LEN,
                frame@.len() == PREAMBLE_LEN + n,
                frame@.subrange(0, PREAMBLE_LEN as int) == self.spec_preamble(),
                forall|j: int| 0 <= j < k ==> frame@[PREAMBLE_LEN + j] == complement(chunk@[j]),
                forall|j: int| 0 <= j < k ==> frame@[PREAMBLE_LEN + j] == 0xFF ^ chunk@[j],
            decreases n - k,
        {
            let b: u8 = invert(chunk[k]);
            frame.set(preamble + k, b);
            k = k + 1;
            assert(frame@.subrange(0, PREAMBLE_LEN as int) =~= self.spec_preamble());
        }
        assert(frame@ =~= self.spec_data_frame(chunk@));
        frame
    }

    /// Number of chunks in the raster: its bits divided by the bits of one
    /// chunk.
    pub open spec fn spec_loops(&self) -> usize {
        ((self.spec_width() * self.spec_height()) / (self.spec_chunk_size() * 8)) as usize
    }

    /// Number of data frames that carry the whole raster.
    #[verifier::when_used_as_spec(spec_loops)]
    pub fn loops(&self) -> (r: usize)
        ensures
            r == self.spec_loops(),
            r * (self.spec_chunk_size() * 8) == self.spec_width() * self.spec_height(),
    {
        proof {
            self.lemma_chunks_cover_raster();
        }
        let bits: usize = self.chunk_size() as usize * 8;
        (self.width() * self.height()) / bits
    }

    /// The raster of every panel is a whole number of chunks: its bit count
    /// leaves no remainder when divided by the bits of one chunk, and the
    /// quotient is 296, 150 and 400 chunks for the three panels.
    pub proof fn lemma_chunks_cover_raster(&self)
        ensures
            (self.spec_width() * self.spec_height()) % (self.spec_chunk_size() * 8) == 0,
            self.spec_loops() * (self.spec_chunk_size() * 8) == self.spec_width()
                * self.spec_height(),
            self.spec_loops() == match self {
                TagSize::TwoNine => 296usize,
                TagSize::FourTwo => 150usize,
                TagSize::SevenFive => 400usize,
            },
    {
        let w: int = self.spec_width() as int;
        let h: int = self.spec_height() as int;
        let b: int = self.spec_chunk_size() * 8;
        match self {
            TagSize::TwoNine => {
                assert((w * h) % b == 0 && (w * h) / b == 296 && 296 * b == w * h)
                    by (nonlinear_arith)
                    requires
                        w == 128,
                        h == 296,
                        b == 128,
                ;
            },
            TagSize::FourTwo => {
                assert((w * h) % b == 0 && (w * h) / b == 150 && 150 * b == w * h)
                    by (nonlinear_arith)
                    requires
                        w == 400,
                        h == 300,
                        b == 800,
                ;
            },
            TagSize::SevenFive => {
                assert((w * h) % b == 0 && (w * h) / b == 400 && 400 * b == w * h)
                    by (nonlinear_arith)
                    requires
                        w == 800,
                        h == 480,
                        b == 960,
                ;
            },
        }
    }

    /// Every byte of a data frame's payload is the flipped byte of the
    /// chunk at the same position, and flipping the payload gives the chunk
    /// back.
    pub proof fn lemma_payload_is_complement(&self, chunk: Seq<u8>)
        ensures
            self.spec_data_frame(chunk).len() == PREAMBLE_LEN + chunk.len(),
            self.spec_data_frame(chunk).subrange(0, PREAMBLE_LEN as int) == self.spec_preamble(),
            forall|k: int|
                0 <= k < chunk.len() ==> #[trigger] self.spec_data_frame(chunk)[PREAMBLE_LEN + k]
                    == complement(chunk[k]),
            complement_all(
                self.spec_data_frame(chunk).subrange(
                    PREAMBLE_LEN as int,
                    PREAMBLE_LEN + chunk.len(),
                ),
            ) == chunk,
    {
        let frame = self.spec_data_frame(chunk);
        assert(frame.subrange(0, PREAMBLE_LEN as int) =~= self.spec_preamble());
        assert(frame.subrange(PREAMBLE_LEN as int, PREAMBLE_LEN + chunk.len()) =~= complement_all(
            chunk,
        ));
        lemma_complement_is_involution(0, chunk);
    }

    /// The header of a panel is that of a binary bitmap of its raster: the
    /// two bytes that mark a binary bitmap, a line feed, the width in
    /// decimal, a space, the height in decimal and a line feed.
    pub proof fn lemma_header_names_raster(&self)
        ensures
            self.spec_header() == seq![0x50u8, 0x34, 0x0A] + decimal_bytes(self.spec_width() as nat)
                + seq![0x20u8] + decimal_bytes(self.spec_height() as nat) + seq![0x0Au8],
    {
        reveal_with_fuel(decimal, 3);
        let w = decimal_bytes(self.spec_width() as nat);
        let h = decimal_bytes(self.spec_height() as nat);
        match self {
            TagSize::TwoNine => {
                assert(w =~= seq![0x31u8, 0x32, 0x38]);
                assert(h =~= seq![0x32u8, 0x39, 0x36]);
            },
            TagSize::FourTwo => {
                assert(w =~= seq![0x34u8, 0x30, 0x30]);
                assert(h =~= seq![0x33u8, 0x30, 0x30]);
            },
            TagSize::SevenFive => {
                assert(w =~= seq![0x38u8, 0x30, 0x30]);
                assert(h =~= seq![0x34u8, 0x38, 0x30]);
            },
        }
        assert(self.spec_header() =~= seq![0x50u8, 0x34, 0x0A] + w + seq![0x20u8] + h
            + seq![0x0Au8]);
    }

    /// No two panels share a header: an image made for one panel is never
    /// taken for an image of another.
    pub proof fn lemma_headers_differ(&self, other: TagSize)
        ensures
            self.spec_header().len() == HEADER_LEN,
            self.spec_header() == other.spec_header() <==> *self == other,
    {
        let a = self.spec_header();
        let b = other.spec_header();
        if *self != other {
            assert(a[3] != b[3]);
        }
    }

    /// Number of bytes in a complete image file: the header and the raster.
    pub open spec fn spec_image_len(&self) -> nat {
        (HEADER_LEN + self.spec_loops() * self.spec_chunk_size()) as nat
    }

    pub open spec fn spec_power_on(&self) -> Seq<u8> {
        seq![CMD, 0x18]
    }

    /// The frame that powers the panel on.
    pub fn power_on(&self) -> (r: Vec<u8>)
        ensures
            r@ == self.spec_power_on(),
    {
        let r: Vec<u8> = vec![CMD, 0x18];
        assert(r@ =~= self.spec_power_on());
        r
    }

    pub open spec fn spec_refresh(&self) -> Seq<u8> {
        seq![CMD, 0x09]
    }

    /// The frame that starts the refresh of the panel.
    pub fn refresh(&self) -> (r: Vec<u8>)
        ensures
            r@ == self.spec_refresh(),
    {
        let r: Vec<u8> = vec![CMD, 0x09];
        assert(r@ =~= self.spec_refresh());
        r
    }

    pub open spec fn spec_wait(&self) -> Seq<u8> {
        seq![CMD, 0x0A]
    }

    /// The frame that asks whether the image has been committed.
    pub fn wait(&self) -> (r: Vec<u8>)
        ensures
            r@ == self.spec_wait(),
    {
        let r: Vec<u8> = vec![CMD, 0x0A];
        assert(r@ =~= self.spec_wait());
        r
    }

    pub open spec fn spec_power_off(&self) -> Seq<u8> {
        seq![CMD, 0x04]
    }

    /// The frame that powers the panel off.
    pub fn power_off(&self) -> (r: Vec<u8>)
        ensures
            r@ == self.spec_power_off(),
    {
        let r: Vec<u8> = vec![CMD, 0x04];
        assert(r@ =~= self.spec_power_off());
        r
    }
}

} // verus!
