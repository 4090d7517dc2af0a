//! Keyboard matrix: 8 rows of 5 columns.  A cleared bit means the key is
//! pressed.  A port read selects rows through zero bits of the port's high
//! byte and returns the AND of the selected rows over the low five bits.

use vstd::prelude::*;

verus! {

/// The 8x5 keyboard matrix.
pub struct Keyboard {
    /// One byte per row; bit `c` clear means key (row, c) is pressed.
    pub matrix: Vec<u8>,
}

/// The byte a port read returns: 0x1F masked by every row whose select bit
/// (in the high byte of the port) is zero.
pub open spec fn spec_kb_read(matrix: Seq<u8>, port: u16) -> u8 {
    let hb = (port >> 8) as u8;
    let r0 = 0x1Fu8;
    let r1 = if hb & 0x01 == 0 {
        r0 & matrix[0]
    } else {
        r0
    };
    let r2 = if hb & 0x02 == 0 {
        r1 & matrix[1]
    } else {
        r1
    };
    let r3 = if hb & 0x04 == 0 {
        r2 & matrix[2]
    } else {
        r2
    };
    let r4 = if hb & 0x08 == 0 {
        r3 & matrix[3]
    } else {
        r3
    };
    let r5 = if hb & 0x10 == 0 {
        r4 & matrix[4]
    } else {
        r4
    };
    let r6 = if hb & 0x20 == 0 {
        r5 & matrix[5]
    } else {
        r5
    };
    let r7 = if hb & 0x40 == 0 {
        r6 & matrix[6]
    } else {
        r6
    };
    if hb & 0x80 == 0 {
        r7 & matrix[7]
    } else {
        r7
    }
}

proof fn lemma_clear_bit(m: u8, c: u8, c2: u8)
    by (bit_vector)
    requires
        c < 8,
        c2 < 8,
    ensures
        (m & !(1u8 << c2)) & (1u8 << c) == (if c == c2 {
            0u8
        } else {
            m & (1u8 << c)
        }),
{
}

impl Keyboard {
    /// Eight matrix rows.
    pub open spec fn wf(self) -> bool {
        self.matrix@.len() == 8
    }

    /// Whether the key at (row, col) is held down.
    pub open spec fn spec_pressed(self, row: int, col: u8) -> bool {
        self.matrix@[row] & (1u8 << col) == 0
    }

    /// New keyboard with every key released.
    pub fn new() -> (k: Keyboard)
        ensures
            k.wf(),
            forall|r: int| 0 <= r < 8 ==> k.matrix@[r] == 0xFF,
    {
        Keyboard { matrix: vec![0xFFu8; 8] }
    }

    /// Release every key.
    pub fn reset(&mut self)
        requires
            old(self).wf(),
        ensures
            final(self).wf(),
            forall|r: int| 0 <= r < 8 ==> final(self).matrix@[r] == 0xFF,
    {
        self.matrix = vec![0xFFu8; 8];
    }

    /// Read the matrix for a port: each zero bit of the port's high byte
    /// selects one row; the result is 0x1F AND-ed with every selected row.
    pub fn read(&self, port: u16) -> (r: u8)
        requires
            self.wf(),
        ensures
            r == spec_kb_read(self.matrix@, port),
    {
        let high_byte = (port >> 8) as u8;
        let mut result: u8 = 0x1F;
        if high_byte & 0x01 == 0 {
            result = result & self.matrix[0];
        }
        if high_byte & 0x02 == 0 {
            result = result & self.matrix[1];
        }
        if high_byte & 0x04 == 0 {
            result = result & self.matrix[2];
        }
        if high_byte & 0x08 == 0 {
            result = result & self.matrix[3];
        }
        if high_byte & 0x10 == 0 {
            result = result & self.matrix[4];
        }
        if high_byte & 0x20 == 0 {
            result = result & self.matrix[5];
        }
        if high_byte & 0x40 == 0 {
            result = result & self.matrix[6];
        }
        if high_byte & 0x80 == 0 {
            result = result & self.matrix[7];
        }
        result
    }

    /// Replace the whole matrix state: exactly the listed (row, column)
    /// positions are pressed; pairs off the matrix are ignored.
    pub fn update(&mut self, pressed: &Vec<(u8, u8)>)
        requires
            old(self).wf(),
        ensures
            final(self).wf(),
            forall|r: int, c: u8|
                0 <= r < 8 && c < 5 ==> (#[trigger] final(self).spec_pressed(r, c)
                    <==> pressed@.contains((r as u8, c))),
    {
        self.matrix = vec![0xFFu8; 8];
        proof {
            assert forall|r: int, c: u8| 0 <= r < 8 && c < 5 implies !(#[trigger] self.spec_pressed(
                r,
                c,
            )) by {
                assert(0xFFu8 & (1u8 << c) != 0) by (bit_vector)
                    requires
                        c < 5,
                ;
            }
        }
        let mut k: usize = 0;
        while k < pressed.len()
            invariant
                self.wf(),
                k <= pressed@.len(),
                forall|r: int, c: u8|
                    0 <= r < 8 && c < 5 ==> (#[trigger] self.spec_pressed(r, c)
                        <==> pressed@.subrange(0, k as int).contains((r as u8, c))),
            decreases pressed@.len() - k,
        {
            let ghost pre = *self;
            let (row, col) = pressed[k];
            if row < 8 && col < 5 {
                let m = self.matrix[row as usize];
                self.matrix.set(row as usize, m & !(1u8 << col));
                proof {
                    assert forall|r: int, c: u8| 0 <= r < 8 && c < 5 implies (
                    #[trigger] self.spec_pressed(r, c) <==> pressed@.subrange(
                        0,
                        k + 1,
                    ).contains((r as u8, c))) by {
                        assert(pre.spec_pressed(r, c) <==> pressed@.subrange(
                            0,
                            k as int,
                        ).contains((r as u8, c)));
                        if r == row {
                            lemma_clear_bit(m, c, col);
                        } else {
                            assert(self.matrix@[r] == pre.matrix@[r]);
                        }
                        assert(pressed@.subrange(0, k + 1).drop_last() == pressed@.subrange(
                            0,
                            k as int,
                        ));
                        if pressed@.subrange(0, k + 1).contains((r as u8, c)) {
                            let j = choose|j: int|
                                0 <= j < k + 1 && #[trigger] pressed@.subrange(0, k + 1)[j] == (r as u8, c);
                            if j < k {
                                assert(pressed@.subrange(0, k as int)[j] == (r as u8, c));
                                assert(pressed@.subrange(0, k as int).contains((r as u8, c)));
                            }
                        }
                        if pressed@.subrange(0, k as int).contains((r as u8, c)) {
                            let j = choose|j: int|
                                0 <= j < k && #[trigger] pressed@.subrange(0, k as int)[j] == (r as u8, c);
                            assert(pressed@.subrange(0, k + 1)[j] == (r as u8, c));
                        }
                        if (r as u8, c) == (row, col) {
                            assert(pressed@.subrange(0, k + 1)[k as int] == (r as u8, c));
                        }
                    }
                }
            } else {
                proof {
                    assert forall|r: int, c: u8| 0 <= r < 8 && c < 5 implies (
                    #[trigger] self.spec_pressed(r, c) <==> pressed@.subrange(
                        0,
                        k + 1,
                    ).contains((r as u8, c))) by {
                        if pressed@.subrange(0, k + 1).contains((r as u8, c)) {
                            let j = choose|j: int|
                                0 <= j < k + 1 && #[trigger] pressed@.subrange(0, k + 1)[j] == (r as u8, c);
                            assert(j < k);
                            assert(pressed@.subrange(0, k as int).contains((r as u8, c)));
                        }
                        if pressed@.subrange(0, k as int).contains((r as u8, c)) {
                            let j = choose|j: int|
                                0 <= j < k && #[trigger] pressed@.subrange(0, k as int)[j] == (r as u8, c);
                            assert(pressed@.subrange(0, k + 1)[j] == (r as u8, c));
                        }
                    }
                }
            }
            k = k + 1;
        }
        proof {
            assert(pressed@.subrange(0, pressed@.len() as int) == pressed@);
        }
    }

    /// Whether the key at (row, col) is pressed; positions off the matrix
    /// are never pressed.
    pub fn is_key_pressed(&self, row: usize, col: usize) -> (r: bool)
        requires
            self.wf(),
        ensures
            r == (row < 8 && col < 5 && self.spec_pressed(row as int, col as u8)),
    {
        if row < 8 && col < 5 {
            self.matrix[row] & (1u8 << (col as u8)) == 0
        } else {
            false
        }
    }
}

} // verus!
