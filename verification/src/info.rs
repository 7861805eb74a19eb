//! Stream information: sample rate, channel layout, sample width and length.
use vstd::prelude::*;
use vstd::std_specs::ops::{DivSpec, MulSpec, RemSpec};

verus! {

/// Metadata about an audio data stream or file.
#[derive(Debug, Clone, Copy, PartialEq, Eq, Structural)]
pub struct Info {
    /// The sample rate, in Hz.
    pub sample_rate: u32,
    /// The number of channels (1 for mono, 2 for stereo).
    pub channels: u8,
    /// The number of bits per sample.
    pub bits_per_sample: u8,
    /// The total number of frames, if known.
    pub num_frames: Option<u64>,
}

impl Default for Info {
    fn default() -> (r: Self)
        ensures
            r == (Info { sample_rate: 0, channels: 0, bits_per_sample: 0, num_frames: None }),
    {
        Info { sample_rate: 0, channels: 0, bits_per_sample: 0, num_frames: None }
    }
}

impl Info {
    /// The number of bytes of one frame, truncated to a byte.
    pub open spec fn alignment(&self) -> u8 {
        ((self.bits_per_sample as u32 * self.channels as u32 / 8) as u32) as u8
    }

    pub fn new(sample_rate: u32, channels: u8, bits_per_sample: u8, num_frames: Option<u64>) -> (r: Self)
        ensures
            r == (Info { sample_rate, channels, bits_per_sample, num_frames }),
    {
        Info { sample_rate, channels, bits_per_sample, num_frames }
    }

    /// Sets the length to the frames of `duration_ms` milliseconds.
    pub fn set_duration_ms(&mut self, duration_ms: u32)
        requires
            duration_ms * old(self).sample_rate <= u32::MAX,
        ensures
            *final(self) == (Info { num_frames: Some((duration_ms * old(self).sample_rate / 1000) as u64), ..*old(self) }),
    {
        self.num_frames = Some(((duration_ms * self.sample_rate) / 1000) as u64);
    }

    pub fn set_num_frames(&mut self, num_frames: u64)
        ensures
            *final(self) == (Info { num_frames: Some(num_frames), ..*old(self) }),
    {
        self.num_frames = Some(num_frames);
    }

    /// Whether the stream information describes a playable stream: a rate,
    /// channels, and a whole number of bytes per sample.
    pub fn vaild(&self) -> (b: bool)
        ensures
            b == (self.sample_rate > 0 && self.channels > 0 && self.bits_per_sample > 0 && self.bits_per_sample % 8 == 0),
    {
        self.sample_rate > 0 && self.channels > 0 && self.bits_per_sample > 0 && (self.bits_per_sample % 8 == 0)
    }

    /// The number of bytes of one frame.
    pub fn get_alignment_bytes(&self) -> (a: u8)
        ensures
            a == self.alignment(),
    {
        assert(self.bits_per_sample as u32 * self.channels as u32 <= 255 * 255) by (nonlinear_arith)
            requires
                self.bits_per_sample <= 255,
                self.channels <= 255,
        ;
        (self.bits_per_sample as u32 * self.channels as u32 / 8) as u8
    }

    /// The bit rate, in bits per second.
    pub fn get_bit_rate(&self) -> (r: u32)
        requires
            self.sample_rate * self.channels <= u32::MAX,
            self.sample_rate * self.channels * self.bits_per_sample <= u32::MAX,
        ensures
            r == self.sample_rate * self.channels * self.bits_per_sample,
    {
        self.sample_rate as u32 * self.channels as u32 * self.bits_per_sample as u32
    }

    /// The length in milliseconds, if the number of frames is known.
    pub fn get_duration_ms(&self) -> (r: Option<u32>)
        requires
            self.num_frames is Some ==> (self.sample_rate > 0 && self.num_frames->0 * 1000 <= u64::MAX),
        ensures
            r == match self.num_frames {
                Some(frames) => Some(((frames * 1000) / (self.sample_rate as int)) as u32),
                None => None,
            },
    {
        match self.num_frames {
            Some(frames) => Some(((frames * 1000) / self.sample_rate as u64) as u32),
            None => None,
        }
    }
}

impl Info {
    /// `data` rounded down to a whole number of frames: `data / a * a` in `T`,
    /// where `a` is the frame size converted into `T`.
    pub fn down_to_alignment<T>(&self, data: T) -> (r: T)
        where
            T: core::ops::Div<Output = T> + core::ops::Mul<Output = T> + From<u8> + Copy,
        requires
            forall|a: T| #[trigger] call_ensures(T::from, (self.alignment(),), a) ==> {
                &&& data.div_req(a)
                &&& forall|q: T| #[trigger] call_ensures(T::div, (data, a), q) ==> q.mul_req(a)
            },
        ensures
            rounded_down(self.alignment(), data, r),
    {
        let alignment = T::from(self.get_alignment_bytes());
        let q = data / alignment;
        q * alignment
    }

    /// Whether `data` is a whole number of frames: `data % a == 0` in `T`,
    /// where `a` is the frame size converted into `T`.
    pub fn is_aligned<T>(&self, data: T) -> (b: bool)
        where
            T: core::ops::Rem<Output = T> + From<u8> + Copy + PartialEq,
        requires
            forall|a: T| #[trigger] call_ensures(T::from, (self.alignment(),), a) ==> data.rem_req(a),
        ensures
            aligned_to(self.alignment(), data, b),
    {
        let alignment = T::from(self.get_alignment_bytes());
        let m = data % alignment;
        let z = T::from(0u8);
        m == z
    }
}

/// `r` is `data / a * a` computed in `T`, where `a` is the frame size
/// `alignment` converted into `T`.
pub open spec fn rounded_down<T>(alignment: u8, data: T, r: T) -> bool
    where
        T: core::ops::Div<Output = T> + core::ops::Mul<Output = T> + From<u8> + Copy,
{
    exists|a: T, q: T| {
        &&& #[trigger] call_ensures(T::from, (alignment,), a)
        &&& #[trigger] call_ensures(T::div, (data, a), q)
        &&& call_ensures(T::mul, (q, a), r)
    }
}

/// `b` is whether `data % a == 0` in `T`, where `a` is the frame size
/// `alignment` converted into `T`.
pub open spec fn aligned_to<T>(alignment: u8, data: T, b: bool) -> bool
    where
        T: core::ops::Rem<Output = T> + From<u8> + Copy + PartialEq,
{
    exists|a: T, m: T, z: T| {
        &&& #[trigger] call_ensures(T::from, (alignment,), a)
        &&& #[trigger] call_ensures(T::rem, (data, a), m)
        &&& #[trigger] call_ensures(T::from, (0u8,), z)
        &&& call_ensures(T::eq, (&m, &z), b)
    }
}

/// Rounding a natural number down to a multiple of `a`: the result is a
/// multiple of `a`, at most the number, less than `a` below it, and rounding
/// it again changes nothing.
proof fn lemma_round_down(data: int, a: int, q: int)
    requires
        0 <= data,
        0 < a,
        q == data / a,
    ensures
        q * a <= data,
        data - q * a < a,
        (q * a) % a == 0,
        (q * a) / a == q,
{
    let r = q * a;
    vstd::arithmetic::div_mod::lemma_fundamental_div_mod(data, a);
    vstd::arithmetic::div_mod::lemma_mod_bound(data, a);
    assert(r == data - data % a) by (nonlinear_arith)
        requires
            data == a * (data / a) + data % a,
            q == data / a,
            r == q * a,
    ;
    vstd::arithmetic::div_mod::lemma_mod_multiples_basic(q, a);
    vstd::arithmetic::div_mod::lemma_div_multiples_vanish(q, a);
    assert(q * a == a * q) by (nonlinear_arith);
}

/// On `u16` sizes, rounding down to the frame size gives the largest whole
/// number of frames that fits in `data`; that result is aligned and rounds
/// down to itself; and a size is aligned exactly when the frame size divides
/// it.
pub proof fn lemma_u16_alignment(info: Info, data: u16, r: u16, r2: u16, b: bool, c: bool)
    requires
        info.alignment() > 0,
        rounded_down::<u16>(info.alignment(), data, r),
        rounded_down::<u16>(info.alignment(), r, r2),
        aligned_to::<u16>(info.alignment(), r, b),
        aligned_to::<u16>(info.alignment(), data, c),
    ensures
        r == (data / (info.alignment() as u16)) * (info.alignment() as u16),
        r <= data,
        data - r < info.alignment(),
        r % (info.alignment() as u16) == 0,
        r2 == r,
        b,
        c <==> data % (info.alignment() as u16) == 0,
{
    let al = info.alignment() as u16;
    let (a, q) = choose|a: u16, q: u16| {
        &&& #[trigger] call_ensures(<u16 as From<u8>>::from, (info.alignment(),), a)
        &&& #[trigger] call_ensures(<u16 as core::ops::Div>::div, (data, a), q)
        &&& call_ensures(<u16 as core::ops::Mul>::mul, (q, a), r)
    };
    assert(a == al && q == data / al);
    lemma_round_down(data as int, al as int, q as int);
    assert(r == q * al);
    let (a3, q3) = choose|a: u16, q: u16| {
        &&& #[trigger] call_ensures(<u16 as From<u8>>::from, (info.alignment(),), a)
        &&& #[trigger] call_ensures(<u16 as core::ops::Div>::div, (r, a), q)
        &&& call_ensures(<u16 as core::ops::Mul>::mul, (q, a), r2)
    };
    assert(a3 == al && q3 == r / al);
    lemma_round_down(r as int, al as int, q3 as int);
    assert(r2 == q3 * al);
    let (a1, m1, z1) = choose|a: u16, m: u16, z: u16| {
        &&& #[trigger] call_ensures(<u16 as From<u8>>::from, (info.alignment(),), a)
        &&& #[trigger] call_ensures(<u16 as core::ops::Rem>::rem, (r, a), m)
        &&& #[trigger] call_ensures(<u16 as From<u8>>::from, (0u8,), z)
        &&& call_ensures(<u16 as PartialEq>::eq, (&m, &z), b)
    };
    assert(a1 == al && m1 == r % al && z1 == 0);
    let (a2, m2, z2) = choose|a: u16, m: u16, z: u16| {
        &&& #[trigger] call_ensures(<u16 as From<u8>>::from, (info.alignment(),), a)
        &&& #[trigger] call_ensures(<u16 as core::ops::Rem>::rem, (data, a), m)
        &&& #[trigger] call_ensures(<u16 as From<u8>>::from, (0u8,), z)
        &&& call_ensures(<u16 as PartialEq>::eq, (&m, &z), c)
    };
    assert(a2 == al && m2 == data % al && z2 == 0);
}

/// On `u32` sizes, rounding down to the frame size gives the largest whole
/// number of frames that fits in `data`; that result is aligned and rounds
/// down to itself; and a size is aligned exactly when the frame size divides
/// it.
pub proof fn lemma_u32_alignment(info: Info, data: u32, r: u32, r2: u32, b: bool, c: bool)
    requires
        info.alignment() > 0,
        rounded_down::<u32>(info.alignment(), data, r),
        rounded_down::<u32>(info.alignment(), r, r2),
        aligned_to::<u32>(info.alignment(), r, b),
        aligned_to::<u32>(info.alignment(), data, c),
    ensures
        r == (data / (info.alignment() as u32)) * (info.alignment() as u32),
        r <= data,
        data - r < info.alignment(),
        r % (info.alignment() as u32) == 0,
        r2 == r,
        b,
        c <==> data % (info.alignment() as u32) == 0,
{
    let al = info.alignment() as u32;
    let (a, q) = choose|a: u32, q: u32| {
        &&& #[trigger] call_ensures(<u32 as From<u8>>::from, (info.alignment(),), a)
        &&& #[trigger] call_ensures(<u32 as core::ops::Div>::div, (data, a), q)
        &&& call_ensures(<u32 as core::ops::Mul>::mul, (q, a), r)
    };
    assert(a == al && q == data / al);
    lemma_round_down(data as int, al as int, q as int);
    assert(r == q * al);
    let (a3, q3) = choose|a: u32, q: u32| {
        &&& #[trigger] call_ensures(<u32 as From<u8>>::from, (info.alignment(),), a)
        &&& #[trigger] call_ensures(<u32 as core::ops::Div>::div, (r, a), q)
        &&& call_ensures(<u32 as core::ops::Mul>::mul, (q, a), r2)
    };
    assert(a3 == al && q3 == r / al);
    lemma_round_down(r as int, al as int, q3 as int);
    assert(r2 == q3 * al);
    let (a1, m1, z1) = choose|a: u32, m: u32, z: u32| {
        &&& #[trigger] call_ensures(<u32 as From<u8>>::from, (info.alignment(),), a)
        &&& #[trigger] call_ensures(<u32 as core::ops::Rem>::rem, (r, a), m)
        &&& #[trigger] call_ensures(<u32 as From<u8>>::from, (0u8,), z)
        &&& call_ensures(<u32 as PartialEq>::eq, (&m, &z), b)
    };
    assert(a1 == al && m1 == r % al && z1 == 0);
    let (a2, m2, z2) = choose|a: u32, m: u32, z: u32| {
        &&& #[trigger] call_ensures(<u32 as From<u8>>::from, (info.alignment(),), a)
        &&& #[trigger] call_ensures(<u32 as core::ops::Rem>::rem, (data, a), m)
        &&& #[trigger] call_ensures(<u32 as From<u8>>::from, (0u8,), z)
        &&& call_ensures(<u32 as PartialEq>::eq, (&m, &z), c)
    };
    assert(a2 == al && m2 == data % al && z2 == 0);
}

/// On `u64` sizes, rounding down to the frame size gives the largest whole
/// number of frames that fits in `data`; that result is aligned and rounds
/// down to itself; and a size is aligned exactly when the frame size divides
/// it.
pub proof fn lemma_u64_alignment(info: Info, data: u64, r: u64, r2: u64, b: bool, c: bool)
    requires
        info.alignment() > 0,
        rounded_down::<u64>(info.alignment(), data, r),
        rounded_down::<u64>(info.alignment(), r, r2),
        aligned_to::<u64>(info.alignment(), r, b),
        aligned_to::<u64>(info.alignment(), data, c),
    ensures
        r == (data / (info.alignment() as u64)) * (info.alignment() as u64),
        r <= data,
        data - r < info.alignment(),
        r % (info.alignment() as u64) == 0,
        r2 == r,
        b,
        c <==> data % (info.alignment() as u64) == 0,
{
    let al = info.alignment() as u64;
    let (a, q) = choose|a: u64, q: u64| {
        &&& #[trigger] call_ensures(<u64 as From<u8>>::from, (info.alignment(),), a)
        &&& #[trigger] call_ensures(<u64 as core::ops::Div>::div, (data, a), q)
        &&& call_ensures(<u64 as core::ops::Mul>::mul, (q, a), r)
    };
    assert(a == al && q == data / al);
    lemma_round_down(data as int, al as int, q as int);
    assert(r == q * al);
    let (a3, q3) = choose|a: u64, q: u64| {
        &&& #[trigger] call_ensures(<u64 as From<u8>>::from, (info.alignment(),), a)
        &&& #[trigger] call_ensures(<u64 as core::ops::Div>::div, (r, a), q)
        &&& call_ensures(<u64 as core::ops::Mul>::mul, (q, a), r2)
    };
    assert(a3 == al && q3 == r / al);
    lemma_round_down(r as int, al as int, q3 as int);
    assert(r2 == q3 * al);
    let (a1, m1, z1) = choose|a: u64, m: u64, z: u64| {
        &&& #[trigger] call_ensures(<u64 as From<u8>>::from, (info.alignment(),), a)
        &&& #[trigger] call_ensures(<u64 as core::ops::Rem>::rem, (r, a), m)
        &&& #[trigger] call_ensures(<u64 as From<u8>>::from, (0u8,), z)
        &&& call_ensures(<u64 as PartialEq>::eq, (&m, &z), b)
    };
    assert(a1 == al && m1 == r % al && z1 == 0);
    let (a2, m2, z2) = choose|a: u64, m: u64, z: u64| {
        &&& #[trigger] call_ensures(<u64 as From<u8>>::from, (info.alignment(),), a)
        &&& #[trigger] call_ensures(<u64 as core::ops::Rem>::rem, (data, a), m)
        &&& #[trigger] call_ensures(<u64 as From<u8>>::from, (0u8,), z)
        &&& call_ensures(<u64 as PartialEq>::eq, (&m, &z), c)
    };
    assert(a2 == al && m2 == data % al && z2 == 0);
}

/// On `usize` sizes, rounding down to the frame size gives the largest whole
/// number of frames that fits in `data`; that result is aligned and rounds
/// down to itself; and a size is aligned exactly when the frame size divides
/// it.
pub proof fn lemma_usize_alignment(info: Info, data: usize, r: usize, r2: usize, b: bool, c: bool)
    requires
        info.alignment() > 0,
        rounded_down::<usize>(info.alignment(), data, r),
        rounded_down::<usize>(info.alignment(), r, r2),
        aligned_to::<usize>(info.alignment(), r, b),
        aligned_to::<usize>(info.alignment(), data, c),
    ensures
        r == (data / (info.alignment() as usize)) * (info.alignment() as usize),
        r <= data,
        data - r < info.alignment(),
        r % (info.alignment() as usize) == 0,
        r2 == r,
        b,
        c <==> data % (info.alignment() as usize) == 0,
{
    let al = info.alignment() as usize;
    let (a, q) = choose|a: usize, q: usize| {
        &&& #[trigger] call_ensures(<usize as From<u8>>::from, (info.alignment(),), a)
        &&& #[trigger] call_ensures(<usize as core::ops::Div>::div, (data, a), q)
        &&& call_ensures(<usize as core::ops::Mul>::mul, (q, a), r)
    };
    assert(a == al && q == data / al);
    lemma_round_down(data as int, al as int, q as int);
    assert(r == q * al);
    let (a3, q3) = choose|a: usize, q: usize| {
        &&& #[trigger] call_ensures(<usize as From<u8>>::from, (info.alignment(),), a)
        &&& #[trigger] call_ensures(<usize as core::ops::Div>::div, (r, a), q)
        &&& call_ensures(<usize as core::ops::Mul>::mul, (q, a), r2)
    };
    assert(a3 == al && q3 == r / al);
    lemma_round_down(r as int, al as int, q3 as int);
    assert(r2 == q3 * al);
    let (a1, m1, z1) = choose|a: usize, m: usize, z: usize| {
        &&& #[trigger] call_ensures(<usize as From<u8>>::from, (info.alignment(),), a)
        &&& #[trigger] call_ensures(<usize as core::ops::Rem>::rem, (r, a), m)
        &&& #[trigger] call_ensures(<usize as From<u8>>::from, (0u8,), z)
        &&& call_ensures(<usize as PartialEq>::eq, (&m, &z), b)
    };
    assert(a1 == al && m1 == r % al && z1 == 0);
    let (a2, m2, z2) = choose|a: usize, m: usize, z: usize| {
        &&& #[trigger] call_ensures(<usize as From<u8>>::from, (info.alignment(),), a)
        &&& #[trigger] call_ensures(<usize as core::ops::Rem>::rem, (data, a), m)
        &&& #[trigger] call_ensures(<usize as From<u8>>::from, (0u8,), z)
        &&& call_ensures(<usize as PartialEq>::eq, (&m, &z), c)
    };
    assert(a2 == al && m2 == data % al && z2 == 0);
}

} // verus!
