use vstd::prelude::*;

verus! {

/// Bytes of the push-constant block that both shader stages declare.
pub const PUSH_CONSTANT_SIZE: usize = 40;

/// The per-frame parameters uploaded to both pipeline stages. The fields
/// that the shaders read as 32-bit floats hold IEEE-754 bit patterns.
/// The block is ten little-endian 32-bit words, with no padding, in this
/// order: position (three), time, viewport width and height, mouse x and y,
/// mouse-pressed flag, frame index.
#[derive(Clone, Copy, Debug)]
pub struct PushConstant {
    pub pos: [u32; 3],
    pub time: u32,
    pub wh: [u32; 2],
    pub mouse: [u32; 2],
    pub mouse_pressed: u32,
    pub frame: u32,
}

/// The ten words of the block, in layout order.
pub open spec fn words_of(p: PushConstant) -> Seq<u32> {
    seq![
        p.pos[0],
        p.pos[1],
        p.pos[2],
        p.time,
        p.wh[0],
        p.wh[1],
        p.mouse[0],
        p.mouse[1],
        p.mouse_pressed,
        p.frame,
    ]
}

/// Byte `k` (0 to 3, least significant first) of a word.
pub open spec fn byte_of(w: u32, k: int) -> u8 {
    if k == 0 {
        (w & 0xff) as u8
    } else if k == 1 {
        ((w >> 8u32) & 0xff) as u8
    } else if k == 2 {
        ((w >> 16u32) & 0xff) as u8
    } else {
        ((w >> 24u32) & 0xff) as u8
    }
}

/// The word whose little-endian bytes are `b0` to `b3`.
pub open spec fn word_of(b0: u8, b1: u8, b2: u8, b3: u8) -> u32 {
    (b0 as u32) | ((b1 as u32) << 8u32) | ((b2 as u32) << 16u32) | ((b3 as u32) << 24u32)
}

/// The binary block of `p`.
pub open spec fn encode(p: PushConstant) -> Seq<u8> {
    Seq::new(PUSH_CONSTANT_SIZE as nat, |i: int| byte_of(words_of(p)[i / 4], i % 4))
}

proof fn lemma_word_round_trip(w: u32)
    ensures
        word_of(byte_of(w, 0), byte_of(w, 1), byte_of(w, 2), byte_of(w, 3)) == w,
{
    assert(((w & 0xff) as u8 as u32) | ((((w >> 8u32) & 0xff) as u8 as u32) << 8u32) | ((((w
        >> 16u32) & 0xff) as u8 as u32) << 16u32) | ((((w >> 24u32) & 0xff) as u8 as u32)
        << 24u32) == w) by (bit_vector);
}

/// Little-endian bytes of one word.
fn word_bytes(w: u32) -> (r: [u8; 4])
    ensures
        r@ == seq![byte_of(w, 0), byte_of(w, 1), byte_of(w, 2), byte_of(w, 3)],
{
    let r = [
        (w & 0xff) as u8,
        ((w >> 8u32) & 0xff) as u8,
        ((w >> 16u32) & 0xff) as u8,
        ((w >> 24u32) & 0xff) as u8,
    ];
    assert(r@ =~= seq![byte_of(w, 0), byte_of(w, 1), byte_of(w, 2), byte_of(w, 3)]);
    r
}

/// The word at byte `at` of `b`, little-endian.
fn read_word(b: &[u8], at: usize) -> (r: u32)
    requires
        at + 4 <= b@.len(),
    ensures
        r == word_of(b@[at as int], b@[at + 1], b@[at + 2], b@[at + 3]),
{
    (b[at] as u32) | ((b[at + 1] as u32) << 8u32) | ((b[at + 2] as u32) << 16u32) | ((b[at
        + 3] as u32) << 24u32)
}

impl PushConstant {
    /// The block at the start of a session: everything zero, and the viewport
    /// size given as bit patterns.
    pub fn new(width_bits: u32, height_bits: u32) -> (r: PushConstant)
        ensures
            r == (PushConstant {
                pos: [0u32, 0u32, 0u32],
                time: 0,
                wh: [width_bits, height_bits],
                mouse: [0u32, 0u32],
                mouse_pressed: 0,
                frame: 0,
            }),
    {
        PushConstant {
            pos: [0, 0, 0],
            time: 0,
            wh: [width_bits, height_bits],
            mouse: [0, 0],
            mouse_pressed: 0,
            frame: 0,
        }
    }

    /// The ten words of the block, in layout order.
    pub fn words(&self) -> (r: Vec<u32>)
        ensures
            r@ == words_of(*self),
    {
        let r = vec![
            self.pos[0],
            self.pos[1],
            self.pos[2],
            self.time,
            self.wh[0],
            self.wh[1],
            self.mouse[0],
            self.mouse[1],
            self.mouse_pressed,
            self.frame,
        ];
        assert(r@ =~= words_of(*self));
        r
    }

    /// The binary block uploaded to the shaders.
    pub fn as_slice(&self) -> (r: Vec<u8>)
        ensures
            r@ == encode(*self),
    {
        let words = self.words();
        let mut r: Vec<u8> = Vec::new();
        let mut i: usize = 0;
        while i < words.len()
            invariant
                0 <= i <= 10,
                words@ == words_of(*self),
                r@.len() == 4 * i,
                forall|k: int| 0 <= k < 4 * i ==> #[trigger] r@[k] == byte_of(words@[k / 4], k % 4),
            decreases 10 - i,
        {
            let b = word_bytes(words[i]);
            let ghost before = r@;
            r.push(b[0]);
            r.push(b[1]);
            r.push(b[2]);
            r.push(b[3]);
            proof {
                assert forall|k: int| 0 <= k < 4 * (i + 1) implies #[trigger] r@[k] == byte_of(
                    words@[k / 4],
                    k % 4,
                ) by {
                    if k < 4 * i {
                        assert(r@[k] == before[k]);
                    } else {
                        assert(k / 4 == i as int);
                    }
                }
            }
            i = i + 1;
        }
        assert(r@ =~= encode(*self));
        r
    }

    /// Reads a block back; `None` unless it holds exactly one block of bytes.
    pub fn from_bytes(b: &[u8]) -> (r: Option<PushConstant>)
        ensures
            b@.len() != PUSH_CONSTANT_SIZE <==> r is None,
            r matches Some(p) ==> encode(p) == b@,
    {
        if b.len() != PUSH_CONSTANT_SIZE {
            return None;
        }
        let p = PushConstant {
            pos: [read_word(b, 0), read_word(b, 4), read_word(b, 8)],
            time: read_word(b, 12),
            wh: [read_word(b, 16), read_word(b, 20)],
            mouse: [read_word(b, 24), read_word(b, 28)],
            mouse_pressed: read_word(b, 32),
            frame: read_word(b, 36),
        };
        proof {
            assert forall|i: int| 0 <= i < PUSH_CONSTANT_SIZE implies #[trigger] encode(p)[i]
                == b@[i] by {
                let q = i / 4;
                let w = words_of(p)[q];
                let b0 = b@[4 * q];
                let b1 = b@[4 * q + 1];
                let b2 = b@[4 * q + 2];
                let b3 = b@[4 * q + 3];
                assert(w == word_of(b0, b1, b2, b3));
                assert(byte_of(word_of(b0, b1, b2, b3), 0) == b0 && byte_of(
                    word_of(b0, b1, b2, b3),
                    1,
                ) == b1 && byte_of(word_of(b0, b1, b2, b3), 2) == b2 && byte_of(
                    word_of(b0, b1, b2, b3),
                    3,
                ) == b3) by {
                    assert(((((b0 as u32) | ((b1 as u32) << 8u32) | ((b2 as u32) << 16u32) | ((
                    b3 as u32) << 24u32)) & 0xff) as u8) == b0) by (bit_vector);
                    assert((((((b0 as u32) | ((b1 as u32) << 8u32) | ((b2 as u32) << 16u32) | ((
                    b3 as u32) << 24u32)) >> 8u32) & 0xff) as u8) == b1) by (bit_vector);
                    assert((((((b0 as u32) | ((b1 as u32) << 8u32) | ((b2 as u32) << 16u32) | ((
                    b3 as u32) << 24u32)) >> 16u32) & 0xff) as u8) == b2) by (bit_vector);
                    assert((((((b0 as u32) | ((b1 as u32) << 8u32) | ((b2 as u32) << 16u32) | ((
                    b3 as u32) << 24u32)) >> 24u32) & 0xff) as u8) == b3) by (bit_vector);
                }
            }
            assert(encode(p) =~= b@);
        }
        Some(p)
    }
}

/// Encoding a block and reading it back gives the same block.
pub proof fn lemma_push_constant_round_trip(p: PushConstant, q: PushConstant)
    requires
        encode(q) == encode(p),
    ensures
        q == p,
{
    assert forall|k: int| 0 <= k < 10 implies #[trigger] words_of(q)[k] == words_of(p)[k] by {
        let e = encode(p);
        assert(e[4 * k] == byte_of(words_of(p)[k], 0));
        assert(e[4 * k + 1] == byte_of(words_of(p)[k], 1));
        assert(e[4 * k + 2] == byte_of(words_of(p)[k], 2));
        assert(e[4 * k + 3] == byte_of(words_of(p)[k], 3));
        assert(encode(q)[4 * k] == byte_of(words_of(q)[k], 0));
        assert(encode(q)[4 * k + 1] == byte_of(words_of(q)[k], 1));
        assert(encode(q)[4 * k + 2] == byte_of(words_of(q)[k], 2));
        assert(encode(q)[4 * k + 3] == byte_of(words_of(q)[k], 3));
        lemma_word_round_trip(words_of(p)[k]);
        lemma_word_round_trip(words_of(q)[k]);
    }
    assert(words_of(q)[0] == words_of(p)[0]);
    assert(words_of(q)[1] == words_of(p)[1]);
    assert(words_of(q)[2] == words_of(p)[2]);
    assert(words_of(q)[4] == words_of(p)[4]);
    assert(words_of(q)[5] == words_of(p)[5]);
    assert(words_of(q)[6] == words_of(p)[6]);
    assert(words_of(q)[7] == words_of(p)[7]);
    assert(q.pos@ =~= p.pos@);
    assert(q.wh@ =~= p.wh@);
    assert(q.mouse@ =~= p.mouse@);
    assert(q.pos == p.pos);
    assert(q.wh == p.wh);
    assert(q.mouse == p.mouse);
    assert(q.time == p.time);
    assert(q.mouse_pressed == p.mouse_pressed);
    assert(q.frame == p.frame);
}

} // verus!
