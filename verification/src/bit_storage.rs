use vstd::prelude::*;

use crate::boolean::Boolean;

verus! {

/// The number of set bits in `bits`.
pub open spec fn ones_in(bits: Seq<bool>) -> nat
    decreases bits.len(),
{
    if bits.len() == 0 {
        0
    } else {
        ones_in(bits.drop_last()) + if bits.last() { 1nat } else { 0nat }
    }
}

/// `n`, or the largest `usize` where `n` does not fit in one.
pub open spec fn saturate(n: int) -> int {
    if n <= usize::MAX {
        n
    } else {
        usize::MAX as int
    }
}

/// The low `width` bits of `x`, least significant first.
pub open spec fn low_bits(x: u128, width: nat) -> Seq<bool> {
    Seq::new(width, |i: int| (x >> (i as u128)) & 1u128 == 1u128)
}

/// Storage whose usable bits can hold a repetition-coded [`Boolean`].
///
/// Implement this trait for a custom storage type when the built-in unsigned
/// integers and integer arrays are unsuitable. Padding bits are not part of
/// [`Self::usable_bits`], and so count neither in [`Self::bit_len`] nor in
/// [`Self::count_ones`]. A width or a count too large for `usize` is reported
/// as `usize::MAX`.
pub trait BitStorage: Sized {
    /// The usable bits of this storage value.
    spec fn usable_bits(&self) -> Seq<bool>;

    /// Returns the number of usable bits in this storage value.
    fn bit_len(&self) -> (len: usize)
        ensures
            len == saturate(self.usable_bits().len() as int),
    ;

    /// Counts set bits among the usable bits in this storage value.
    fn count_ones(&self) -> (ones: usize)
        ensures
            ones == saturate(ones_in(self.usable_bits()) as int),
    ;

    /// Creates storage with every usable bit set to `value`.
    fn filled(value: Boolean) -> (storage: Self)
        ensures
            forall|i: int|
                0 <= i < storage.usable_bits().len() ==> #[trigger] storage.usable_bits()[i]
                    == value.as_bool(),
    ;
}

/// Adding one bit at the end adds it to the count.
pub proof fn lemma_ones_in_push(bits: Seq<bool>, bit: bool)
    ensures
        ones_in(bits.push(bit)) == ones_in(bits) + if bit { 1nat } else { 0nat },
{
    assert(bits.push(bit).drop_last() =~= bits);
}

/// A sequence of bits holds no more set bits than it has bits.
pub proof fn lemma_ones_in_bounded(bits: Seq<bool>)
    ensures
        ones_in(bits) <= bits.len(),
    decreases bits.len(),
{
    if bits.len() > 0 {
        lemma_ones_in_bounded(bits.drop_last());
    }
}

/// The set bits of a concatenation are those of its two parts.
pub proof fn lemma_ones_in_concat(a: Seq<bool>, b: Seq<bool>)
    ensures
        ones_in(a + b) == ones_in(a) + ones_in(b),
    decreases b.len(),
{
    if b.len() == 0 {
        assert(a + b =~= a);
    } else {
        assert((a + b).drop_last() =~= a + b.drop_last());
        lemma_ones_in_concat(a, b.drop_last());
    }
}

/// A sequence whose bits all equal `value` holds all or none set.
pub proof fn lemma_ones_in_uniform(bits: Seq<bool>, value: bool)
    requires
        forall|i: int| 0 <= i < bits.len() ==> #[trigger] bits[i] == value,
    ensures
        ones_in(bits) == if value { bits.len() } else { 0 },
    decreases bits.len(),
{
    if bits.len() > 0 {
        lemma_ones_in_uniform(bits.drop_last(), value);
    }
}

/// Counts the set bits among the low `width` bits of `x`.
fn count_low_ones(x: u128, width: u32) -> (ones: usize)
    requires
        width <= 128,
    ensures
        ones == ones_in(low_bits(x, width as nat)),
{
    let mut ones: usize = 0;
    let mut i: u32 = 0;
    while i < width
        invariant
            i <= width <= 128,
            ones == ones_in(low_bits(x, i as nat)),
            ones <= i,
        decreases width - i,
    {
        proof {
            assert(low_bits(x, (i + 1) as nat) =~= low_bits(x, i as nat).push(
                (x >> (i as u128)) & 1u128 == 1u128,
            ));
            lemma_ones_in_push(low_bits(x, i as nat), (x >> (i as u128)) & 1u128 == 1u128);
        }
        if (x >> i) & 1u128 == 1u128 {
            ones = ones + 1;
        }
        i = i + 1;
    }
    ones
}

impl BitStorage for u8 {
    open spec fn usable_bits(&self) -> Seq<bool> {
        low_bits(*self as u128, 8)
    }

    fn bit_len(&self) -> (len: usize) {
        8
    }

    fn count_ones(&self) -> (ones: usize) {
        proof {
            lemma_ones_in_bounded(low_bits(*self as u128, 8));
        }
        count_low_ones(*self as u128, 8)
    }

    fn filled(value: Boolean) -> (storage: Self) {
        let storage: u8 = match value {
            Boolean::False => 0,
            Boolean::True => u8::MAX,
        };
        proof {
            assert(forall|i: u128| i < 8 ==> #[trigger] ((0u128 >> i) & 1u128) == 0u128) by (bit_vector);
            assert(forall|i: u128| i < 8 ==> #[trigger] ((255u128 >> i) & 1u128) == 1u128) by (bit_vector);
        }
        storage
    }
}

impl BitStorage for u16 {
    open spec fn usable_bits(&self) -> Seq<bool> {
        low_bits(*self as u128, 16)
    }

    fn bit_len(&self) -> (len: usize) {
        16
    }

    fn count_ones(&self) -> (ones: usize) {
        proof {
            lemma_ones_in_bounded(low_bits(*self as u128, 16));
        }
        count_low_ones(*self as u128, 16)
    }

    fn filled(value: Boolean) -> (storage: Self) {
        let storage: u16 = match value {
            Boolean::False => 0,
            Boolean::True => u16::MAX,
        };
        proof {
            assert(forall|i: u128| i < 16 ==> #[trigger] ((0u128 >> i) & 1u128) == 0u128) by (bit_vector);
            assert(forall|i: u128| i < 16 ==> #[trigger] ((0xffffu128 >> i) & 1u128) == 1u128) by (bit_vector);
        }
        storage
    }
}

impl BitStorage for u32 {
    open spec fn usable_bits(&self) -> Seq<bool> {
        low_bits(*self as u128, 32)
    }

    fn bit_len(&self) -> (len: usize) {
        32
    }

    fn count_ones(&self) -> (ones: usize) {
        proof {
            lemma_ones_in_bounded(low_bits(*self as u128, 32));
        }
        count_low_ones(*self as u128, 32)
    }

    fn filled(value: Boolean) -> (storage: Self) {
        let storage: u32 = match value {
            Boolean::False => 0,
            Boolean::True => u32::MAX,
        };
        proof {
            assert(forall|i: u128| i < 32 ==> #[trigger] ((0u128 >> i) & 1u128) == 0u128) by (bit_vector);
            assert(forall|i: u128| i < 32 ==> #[trigger] ((0xffff_ffffu128 >> i) & 1u128) == 1u128) by (bit_vector);
        }
        storage
    }
}

impl BitStorage for u64 {
    open spec fn usable_bits(&self) -> Seq<bool> {
        low_bits(*self as u128, 64)
    }

    fn bit_len(&self) -> (len: usize) {
        64
    }

    fn count_ones(&self) -> (ones: usize) {
        proof {
            lemma_ones_in_bounded(low_bits(*self as u128, 64));
        }
        count_low_ones(*self as u128, 64)
    }

    fn filled(value: Boolean) -> (storage: Self) {
        let storage: u64 = match value {
            Boolean::False => 0,
            Boolean::True => u64::MAX,
        };
        proof {
            assert(forall|i: u128| i < 64 ==> #[trigger] ((0u128 >> i) & 1u128) == 0u128) by (bit_vector);
            assert(forall|i: u128| i < 64 ==> #[trigger] ((0xffff_ffff_ffff_ffffu128 >> i) & 1u128) == 1u128) by (bit_vector);
        }
        storage
    }
}

impl BitStorage for u128 {
    open spec fn usable_bits(&self) -> Seq<bool> {
        low_bits(*self as u128, 128)
    }

    fn bit_len(&self) -> (len: usize) {
        128
    }

    fn count_ones(&self) -> (ones: usize) {
        proof {
            lemma_ones_in_bounded(low_bits(*self as u128, 128));
        }
        count_low_ones(*self as u128, 128)
    }

    fn filled(value: Boolean) -> (storage: Self) {
        let storage: u128 = match value {
            Boolean::False => 0,
            Boolean::True => u128::MAX,
        };
        proof {
            assert(forall|i: u128| i < 128 ==> #[trigger] ((0u128 >> i) & 1u128) == 0u128) by (bit_vector);
            assert(forall|i: u128| i < 128 ==> #[trigger] ((0xffff_ffff_ffff_ffff_ffff_ffff_ffff_ffffu128 >> i) & 1u128) == 1u128) by (bit_vector);
        }
        storage
    }
}

/// The usable bits of a sequence of storage words, one word after another.
pub open spec fn concat_bits<W: BitStorage>(words: Seq<W>) -> Seq<bool>
    decreases words.len(),
{
    if words.len() == 0 {
        Seq::empty()
    } else {
        concat_bits(words.drop_last()) + words.last().usable_bits()
    }
}

/// Words of a common width `width` give `words.len() * width` bits.
pub proof fn lemma_concat_bits_len<W: BitStorage>(words: Seq<W>, width: nat)
    requires
        forall|i: int| 0 <= i < words.len() ==> (#[trigger] words[i]).usable_bits().len() == width,
    ensures
        concat_bits(words).len() == words.len() * width,
    decreases words.len(),
{
    if words.len() > 0 {
        let n = words.len();
        lemma_concat_bits_len(words.drop_last(), width);
        assert(words.last() == words[n - 1]);
        assert((n - 1) * width + width == n * width) by (nonlinear_arith);
    }
}

/// The usable bits of `words`, each of `width` bits, one word after
/// another: bit `k` is bit `k % width` of word `k / width`.
pub open spec fn word_bits<W: BitStorage>(words: Seq<W>, width: nat) -> Seq<bool> {
    Seq::new(words.len() * width, |k: int| words[k / width as int].usable_bits()[k % width as int])
}

/// Laying words of a common width side by side is concatenating their bits.
pub proof fn lemma_word_bits_is_concat<W: BitStorage>(words: Seq<W>, width: nat)
    requires
        width > 0,
        forall|i: int| 0 <= i < words.len() ==> (#[trigger] words[i]).usable_bits().len() == width,
    ensures
        word_bits(words, width) == concat_bits(words),
    decreases words.len(),
{
    let n = words.len();
    let w = width as int;
    if n == 0 {
        assert(word_bits(words, width) =~= concat_bits(words));
    } else {
        let front = words.drop_last();
        lemma_word_bits_is_concat(front, width);
        lemma_concat_bits_len(front, width);
        lemma_concat_bits_len(words, width);
        assert(words.last() == words[n - 1]);
        assert forall|k: int| 0 <= k < n * w implies #[trigger] word_bits(words, width)[k]
            == concat_bits(words)[k] by {
            let q = k / w;
            let r = k % w;
            vstd::arithmetic::div_mod::lemma_fundamental_div_mod(k, w);
            assert(0 <= r < w);
            if k < (n - 1) * w {
                assert(q < n - 1) by (nonlinear_arith)
                    requires
                        k == w * q + r,
                        0 <= r,
                        k < (n - 1) * w,
                        w > 0,
                ;
                assert(0 <= q) by (nonlinear_arith)
                    requires
                        k == w * q + r,
                        r < w,
                        0 <= k,
                        w > 0,
                ;
                assert(concat_bits(words)[k] == concat_bits(front)[k]);
                assert(word_bits(front, width)[k] == front[q].usable_bits()[r]);
            } else {
                vstd::arithmetic::div_mod::lemma_fundamental_div_mod_converse(
                    k,
                    w,
                    n - 1,
                    k - (n - 1) * w,
                );
                assert(concat_bits(words)[k] == words[n - 1].usable_bits()[k - (n - 1) * w]);
            }
        }
        assert(word_bits(words, width) =~= concat_bits(words));
    }
}

/// Counts the set usable bits of every word, saturating at the largest `usize`.
fn count_words_ones<W: BitStorage, const N: usize>(words: &[W; N]) -> (ones: usize)
    ensures
        ones == saturate(ones_in(concat_bits(words@)) as int),
{
    let mut total: usize = 0;
    let mut i: usize = 0;
    while i < N
        invariant
            i <= N,
            words@.len() == N,
            total == saturate(ones_in(concat_bits(words@.take(i as int))) as int),
        decreases N - i,
    {
        let word_ones = words[i].count_ones();
        proof {
            let before = words@.take(i as int);
            let after = words@.take(i + 1);
            assert(after.drop_last() =~= before);
            assert(after.last() == words@[i as int]);
            lemma_ones_in_concat(concat_bits(before), words@[i as int].usable_bits());
        }
        total = total.saturating_add(word_ones);
        i = i + 1;
    }
    proof {
        assert(words@.take(N as int) =~= words@);
    }
    total
}

/// `a * b`, or the largest `usize` where the product does not fit in one.
pub(crate) fn saturating_product(a: usize, b: usize) -> (product: usize)
    ensures
        product == saturate(a * b),
{
    match a.checked_mul(b) {
        Some(product) => product,
        None => usize::MAX,
    }
}

impl<const N: usize> BitStorage for [u8; N] {
    open spec fn usable_bits(&self) -> Seq<bool> {
        word_bits(self@, 8)
    }

    fn bit_len(&self) -> (len: usize) {
        saturating_product(N, 8)
    }

    fn count_ones(&self) -> (ones: usize) {
        proof {
            lemma_word_bits_is_concat(self@, 8);
        }
        count_words_ones(self)
    }

    fn filled(value: Boolean) -> (storage: Self) {
        let word = u8::filled(value);
        [word; N]
    }
}

impl<const N: usize> BitStorage for [u16; N] {
    open spec fn usable_bits(&self) -> Seq<bool> {
        word_bits(self@, 16)
    }

    fn bit_len(&self) -> (len: usize) {
        saturating_product(N, 16)
    }

    fn count_ones(&self) -> (ones: usize) {
        proof {
            lemma_word_bits_is_concat(self@, 16);
        }
        count_words_ones(self)
    }

    fn filled(value: Boolean) -> (storage: Self) {
        let word = u16::filled(value);
        [word; N]
    }
}

impl<const N: usize> BitStorage for [u32; N] {
    open spec fn usable_bits(&self) -> Seq<bool> {
        word_bits(self@, 32)
    }

    fn bit_len(&self) -> (len: usize) {
        saturating_product(N, 32)
    }

    fn count_ones(&self) -> (ones: usize) {
        proof {
            lemma_word_bits_is_concat(self@, 32);
        }
        count_words_ones(self)
    }

    fn filled(value: Boolean) -> (storage: Self) {
        let word = u32::filled(value);
        [word; N]
    }
}

impl<const N: usize> BitStorage for [u64; N] {
    open spec fn usable_bits(&self) -> Seq<bool> {
        word_bits(self@, 64)
    }

    fn bit_len(&self) -> (len: usize) {
        saturating_product(N, 64)
    }

    fn count_ones(&self) -> (ones: usize) {
        proof {
            lemma_word_bits_is_concat(self@, 64);
        }
        count_words_ones(self)
    }

    fn filled(value: Boolean) -> (storage: Self) {
        let word = u64::filled(value);
        [word; N]
    }
}

impl<const N: usize> BitStorage for [u128; N] {
    open spec fn usable_bits(&self) -> Seq<bool> {
        word_bits(self@, 128)
    }

    fn bit_len(&self) -> (len: usize) {
        saturating_product(N, 128)
    }

    fn count_ones(&self) -> (ones: usize) {
        proof {
            lemma_word_bits_is_concat(self@, 128);
        }
        count_words_ones(self)
    }

    fn filled(value: Boolean) -> (storage: Self) {
        let word = u128::filled(value);
        [word; N]
    }
}

} // verus!
