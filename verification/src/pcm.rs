use vstd::prelude::*;

verus! {

/// The magnitude of a sample, as `i16::unsigned_abs` gives it.
pub open spec fn magnitude(sample: i16) -> u16 {
    if sample < 0 {
        (-(sample as int)) as u16
    } else {
        sample as u16
    }
}

/// The largest magnitude among `samples`, or 0 when there are none.
pub open spec fn peak_of(samples: Seq<i16>) -> u16
    decreases samples.len(),
{
    if samples.len() == 0 {
        0
    } else {
        let rest = peak_of(samples.drop_last());
        let last = magnitude(samples.last());
        if rest < last {
            last
        } else {
            rest
        }
    }
}

/// Two channels of equal length merged frame by frame: left, right, left, ...
pub open spec fn interleave(left: Seq<i16>, right: Seq<i16>) -> Seq<i16> {
    Seq::new(2 * left.len(), |i: int| if i % 2 == 0 { left[i / 2] } else { right[i / 2] })
}

/// Interleaving puts frame `j`'s left sample at `2j` and its right sample at
/// `2j + 1`, and nothing else.
pub proof fn lemma_interleave_positions(left: Seq<i16>, right: Seq<i16>)
    requires
        left.len() == right.len(),
    ensures
        interleave(left, right).len() == 2 * left.len(),
        forall|j: int| 0 <= j < left.len() ==> {
            &&& #[trigger] interleave(left, right)[2 * j] == left[j]
            &&& interleave(left, right)[2 * j + 1] == right[j]
        },
{
    assert forall|j: int| 0 <= j < left.len() implies {
        &&& #[trigger] interleave(left, right)[2 * j] == left[j]
        &&& interleave(left, right)[2 * j + 1] == right[j]
    } by {
        assert((2 * j) % 2 == 0 && (2 * j) / 2 == j);
        assert((2 * j + 1) % 2 == 1 && (2 * j + 1) / 2 == j);
    }
}

/// The magnitude of a sample is its absolute value.
pub proof fn lemma_magnitude_is_absolute_value(sample: i16)
    ensures
        magnitude(sample) as int == if sample < 0 { -(sample as int) } else { sample as int },
{
}

/// Low byte of a sample's two's-complement bits.
pub open spec fn low_byte(sample: i16) -> u8 {
    ((sample as u16) % 256) as u8
}

/// High byte of a sample's two's-complement bits.
pub open spec fn high_byte(sample: i16) -> u8 {
    ((sample as u16) / 256) as u8
}

/// Appends the frames of `left` and `right` to `samples`, left sample first.
pub fn append_interleaved(samples: &mut Vec<i16>, left: &Vec<i16>, right: &Vec<i16>)
    requires
        left@.len() == right@.len(),
    ensures
        final(samples)@ == old(samples)@ + interleave(left@, right@),
        final(samples)@.len() == old(samples)@.len() + 2 * left@.len(),
        forall|j: int| 0 <= j < old(samples)@.len() ==> final(samples)@[j] == old(samples)@[j],
        forall|j: int| 0 <= j < left@.len() ==> {
            &&& #[trigger] final(samples)@[old(samples)@.len() + 2 * j] == left@[j]
            &&& final(samples)@[old(samples)@.len() + 2 * j + 1] == right@[j]
        },
{
    let ghost start = old(samples)@;
    let n = left.len();
    let mut i: usize = 0;
    while i < n
        invariant
            n == left@.len(),
            n == right@.len(),
            i <= n,
            samples@ =~= start + interleave(left@.take(i as int), right@.take(i as int)),
        decreases n - i,
    {
        samples.push(left[i]);
        samples.push(right[i]);
        proof {
            let l1 = left@.take(i as int + 1);
            let r1 = right@.take(i as int + 1);
            assert forall|k: int| 0 <= k < 2 * (i + 1) implies #[trigger] interleave(l1, r1)[k]
                == (start + interleave(left@.take(i as int), right@.take(i as int))).push(left@[i as int]).push(right@[i as int])[start.len() + k] by {
            }
            assert(samples@ =~= start + interleave(l1, r1));
        }
        i = i + 1;
    }
    assert(left@.take(n as int) =~= left@);
    assert(right@.take(n as int) =~= right@);
    proof {
        lemma_interleave_positions(left@, right@);
        assert forall|j: int| 0 <= j < left@.len() implies {
            &&& #[trigger] samples@[start.len() + 2 * j] == left@[j]
            &&& samples@[start.len() + 2 * j + 1] == right@[j]
        } by {
            assert(samples@[start.len() + 2 * j] == interleave(left@, right@)[2 * j]);
            assert(samples@[start.len() + 2 * j + 1] == interleave(left@, right@)[2 * j + 1]);
        }
    }
}

/// Interleaved signed 16-bit stereo PCM returned by a render.
///
/// Even positions hold the left channel, odd positions the right channel.
#[derive(Debug, Clone)]
pub struct RenderedPcm {
    pub sample_rate: u32,
    pub samples: Vec<i16>,
}

/// `peak_of` bounds every magnitude and is reached by one of them.
proof fn lemma_peak_of(samples: Seq<i16>)
    ensures
        forall|i: int| 0 <= i < samples.len() ==> magnitude(#[trigger] samples[i]) <= peak_of(samples),
        samples.len() > 0 ==> exists|i: int| 0 <= i < samples.len() && magnitude(#[trigger] samples[i]) == peak_of(samples),
        samples.len() == 0 ==> peak_of(samples) == 0,
    decreases samples.len(),
{
    if samples.len() > 0 {
        let rest = samples.drop_last();
        lemma_peak_of(rest);
        assert forall|i: int| 0 <= i < samples.len() implies magnitude(#[trigger] samples[i]) <= peak_of(samples) by {
            if i < samples.len() - 1 {
                assert(samples[i] == rest[i]);
            }
        }
        if magnitude(samples.last()) <= peak_of(rest) && rest.len() > 0 {
            let j = choose|j: int| 0 <= j < rest.len() && magnitude(#[trigger] rest[j]) == peak_of(rest);
            assert(samples[j] == rest[j]);
        } else {
            assert(samples[samples.len() - 1] == samples.last());
        }
    }
}

fn sample_magnitude(sample: i16) -> (m: u16)
    ensures
        m == magnitude(sample),
        m as int == if sample < 0 { -(sample as int) } else { sample as int },
{
    if sample < 0 {
        let wide: i32 = sample as i32;
        (-wide) as u16
    } else {
        sample as u16
    }
}

impl RenderedPcm {
    /// Number of stereo frames: one left and one right sample each.
    pub fn frames(&self) -> (n: usize)
        ensures
            n == self.samples@.len() / 2,
    {
        self.samples.len() / 2
    }

    /// The samples as headerless little-endian bytes, two per sample.
    pub fn to_le_bytes(&self) -> (bytes: Vec<u8>)
        ensures
            bytes@.len() == 2 * self.samples@.len(),
            forall|i: int| 0 <= i < self.samples@.len() ==> {
                &&& #[trigger] bytes@[2 * i] == low_byte(self.samples@[i])
                &&& bytes@[2 * i + 1] == high_byte(self.samples@[i])
            },
    {
        let mut bytes: Vec<u8> = Vec::new();
        let n = self.samples.len();
        let mut i: usize = 0;
        while i < n
            invariant
                n == self.samples@.len(),
                i <= n,
                bytes@.len() == 2 * i,
                forall|j: int| 0 <= j < i ==> {
                    &&& #[trigger] bytes@[2 * j] == low_byte(self.samples@[j])
                    &&& bytes@[2 * j + 1] == high_byte(self.samples@[j])
                },
            decreases n - i,
        {
            let bits: u16 = self.samples[i] as u16;
            let low: u8 = (bits & 0xff) as u8;
            let high: u8 = (bits >> 8) as u8;
            assert((bits & 0xff) == bits % 256) by (bit_vector);
            assert((bits >> 8) == bits / 256) by (bit_vector);
            let ghost before = bytes@;
            bytes.push(low);
            bytes.push(high);
            proof {
                assert(low == low_byte(self.samples@[i as int]));
                assert(high == high_byte(self.samples@[i as int]));
                assert forall|j: int| 0 <= j <= i implies {
                    &&& #[trigger] bytes@[2 * j] == low_byte(self.samples@[j])
                    &&& bytes@[2 * j + 1] == high_byte(self.samples@[j])
                } by {
                    if j < i {
                        assert(bytes@[2 * j] == before[2 * j]);
                        assert(bytes@[2 * j + 1] == before[2 * j + 1]);
                    }
                }
            }
            i = i + 1;
        }
        bytes
    }

    /// Largest sample magnitude over both channels, 0 for silence or no samples.
    pub fn peak(&self) -> (p: u16)
        ensures
            p == peak_of(self.samples@),
            forall|i: int| 0 <= i < self.samples@.len() ==> magnitude(#[trigger] self.samples@[i]) <= p,
            self.samples@.len() > 0 ==> exists|i: int|
                0 <= i < self.samples@.len() && magnitude(#[trigger] self.samples@[i]) == p,
            self.samples@.len() == 0 ==> p == 0,
            forall|i: int| 0 <= i < self.samples@.len() ==> {
                let s = #[trigger] self.samples@[i];
                (if s < 0 { -(s as int) } else { s as int }) <= p
            },
            self.samples@.len() > 0 ==> exists|i: int| 0 <= i < self.samples@.len() && {
                let s = #[trigger] self.samples@[i];
                (if s < 0 { -(s as int) } else { s as int }) == p
            },
    {
        let mut best: u16 = 0;
        let mut i: usize = 0;
        let n = self.samples.len();
        while i < n
            invariant
                n == self.samples@.len(),
                i <= n,
                best == peak_of(self.samples@.take(i as int)),
            decreases n - i,
        {
            let m = sample_magnitude(self.samples[i]);
            assert(self.samples@.take(i as int + 1).drop_last() =~= self.samples@.take(i as int));
            if best < m {
                best = m;
            }
            i = i + 1;
        }
        assert(self.samples@.take(n as int) =~= self.samples@);
        proof {
            lemma_peak_of(self.samples@);
            assert forall|i: int| 0 <= i < self.samples@.len() implies {
                let s = #[trigger] self.samples@[i];
                (if s < 0 { -(s as int) } else { s as int }) <= best
            } by {
                lemma_magnitude_is_absolute_value(self.samples@[i]);
            }
            if self.samples@.len() > 0 {
                let j = choose|j: int| 0 <= j < self.samples@.len() && magnitude(#[trigger] self.samples@[j]) == best;
                lemma_magnitude_is_absolute_value(self.samples@[j]);
            }
        }
        best
    }
}

} // verus!
