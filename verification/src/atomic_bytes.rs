//! A collection of byte chunks that must be written in one operation.
//!
//! The FUSE kernel driver requires that a whole reply frame arrive in a
//! single `write` call, so a reply payload is modelled as a finite sequence
//! of non-empty byte chunks: [`AtomicBytes::size`] is the total byte count,
//! [`AtomicBytes::count`] the number of chunks, and
//! [`AtomicBytes::fill_bytes`] hands each chunk, in emission order, to a
//! [`FillBytes`] sink. An empty chunk is never enumerated, and the number
//! of `put` calls a fill performs always equals `count()`.

use vstd::prelude::*;
use vstd::string::StringSliceAdditionalSpecFns;
use either::Either;

verus! {

/// Relies on either::Either, a plain public two-variant sum type; it is
/// declared here so that verified code can match on its variants directly.
#[verifier::external_type_specification]
#[verifier::reject_recursive_types(L)]
#[verifier::reject_recursive_types(R)]
pub struct ExEither<L, R>(Either<L, R>);

/// Total number of bytes held by a sequence of chunks.
pub open spec fn total_len(cs: Seq<Seq<u8>>) -> nat
    decreases cs.len(),
{
    if cs.len() == 0 {
        0
    } else {
        total_len(cs.drop_last()) + cs.last().len()
    }
}

/// Chunk totals add up over concatenation.
pub proof fn lemma_total_len_add(a: Seq<Seq<u8>>, b: Seq<Seq<u8>>)
    ensures
        total_len(a + b) == total_len(a) + total_len(b),
    decreases b.len(),
{
    if b.len() == 0 {
        assert(a + b =~= a);
    } else {
        assert((a + b).drop_last() =~= a + b.drop_last());
        lemma_total_len_add(a, b.drop_last());
    }
}

/// The chunk model of a single contiguous byte region: one chunk when it is
/// non-empty, none otherwise.
pub open spec fn leaf_model(b: Seq<u8>) -> Seq<Seq<u8>> {
    if b.len() == 0 {
        Seq::empty()
    } else {
        seq![b]
    }
}

/// The container of scattered bytes: a sink that receives the chunks of an
/// [`AtomicBytes`] value, in order, during a fill.
pub trait FillBytes<'a> {
    /// The chunks received so far, in the order they were put.
    spec fn chunks(&self) -> Seq<Seq<u8>>;

    /// Put one non-empty chunk of bytes into this container.
    fn put(&mut self, chunk: &'a [u8])
        requires
            chunk@.len() > 0,
        ensures
            final(self).chunks() == old(self).chunks().push(chunk@),
    ;
}

/// A collection of bytes to be written atomically, enumerable as a sequence
/// of non-empty borrowed chunks.
pub trait AtomicBytes {
    /// The chunks this value contributes, in emission order.
    spec fn chunk_model(&self) -> Seq<Seq<u8>>;

    /// Every chunk of the model is non-empty: an empty chunk is never
    /// enumerated by a fill.
    proof fn chunk_model_wf(&self)
        ensures
            forall|i: int|
                0 <= i < self.chunk_model().len() ==> #[trigger] self.chunk_model()[i].len() > 0,
    ;

    /// Return the total amount of bytes contained in this data.
    fn size(&self) -> (r: usize)
        requires
            total_len(self.chunk_model()) <= usize::MAX,
        ensures
            r == total_len(self.chunk_model()),
    ;

    /// Return the number of byte chunks a fill will enumerate.
    fn count(&self) -> (r: usize)
        requires
            self.chunk_model().len() <= usize::MAX,
        ensures
            r == self.chunk_model().len(),
    ;

    /// Hand every chunk, in emission order, to `dst`.
    fn fill_bytes<'a, F: FillBytes<'a>>(&'a self, dst: &mut F)
        ensures
            final(dst).chunks() == old(dst).chunks() + self.chunk_model(),
    ;
}

/// The count law: a fill that appends a value's chunks to a sink performs
/// exactly `count()` puts — the sink grows by `chunk_model().len()` entries —
/// their summed lengths equal `size()`, and none of them is empty.
pub proof fn lemma_fill_count_law<T: AtomicBytes + ?Sized>(
    v: &T,
    before: Seq<Seq<u8>>,
    after: Seq<Seq<u8>>,
)
    requires
        after == before + v.chunk_model(),
    ensures
        after.len() == before.len() + v.chunk_model().len(),
        total_len(after) == total_len(before) + total_len(v.chunk_model()),
        forall|i: int| before.len() <= i < after.len() ==> #[trigger] after[i].len() > 0,
{
    v.chunk_model_wf();
    lemma_total_len_add(before, v.chunk_model());
}

// ==== continuous byte leaves ====

impl AtomicBytes for [u8] {
    open spec fn chunk_model(&self) -> Seq<Seq<u8>> {
        leaf_model(self@)
    }

    proof fn chunk_model_wf(&self) {
    }

    fn size(&self) -> (r: usize) {
        proof {
            if self@.len() > 0 {
                assert(seq![self@].drop_last() =~= Seq::<Seq<u8>>::empty());
                assert(total_len(Seq::<Seq<u8>>::empty()) == 0);
                assert(seq![self@].last() == self@);
                assert(total_len(leaf_model(self@)) == self@.len());
            }
        }
        self.len()
    }

    fn count(&self) -> (r: usize) {
        if self.is_empty() {
            0
        } else {
            1
        }
    }

    fn fill_bytes<'a, F: FillBytes<'a>>(&'a self, dst: &mut F) {
        if !self.is_empty() {
            dst.put(self);
            proof {
                assert(old(dst).chunks().push(self@) =~= old(dst).chunks() + leaf_model(self@));
            }
        } else {
            proof {
                assert(old(dst).chunks() + leaf_model(self@) =~= old(dst).chunks());
            }
        }
    }
}

impl AtomicBytes for Vec<u8> {
    open spec fn chunk_model(&self) -> Seq<Seq<u8>> {
        leaf_model(self@)
    }

    proof fn chunk_model_wf(&self) {
    }

    fn size(&self) -> (r: usize) {
        self.as_slice().size()
    }

    fn count(&self) -> (r: usize) {
        self.as_slice().count()
    }

    fn fill_bytes<'a, F: FillBytes<'a>>(&'a self, dst: &mut F) {
        self.as_slice().fill_bytes(dst)
    }
}

// ==== empty leaves ====

impl AtomicBytes for () {
    open spec fn chunk_model(&self) -> Seq<Seq<u8>> {
        Seq::empty()
    }

    proof fn chunk_model_wf(&self) {
    }

    fn size(&self) -> (r: usize) {
        0
    }

    fn count(&self) -> (r: usize) {
        0
    }

    fn fill_bytes<'a, F: FillBytes<'a>>(&'a self, dst: &mut F) {
        proof {
            assert(old(dst).chunks() + Seq::<Seq<u8>>::empty() =~= old(dst).chunks());
        }
    }
}

impl AtomicBytes for [u8; 0] {
    open spec fn chunk_model(&self) -> Seq<Seq<u8>> {
        Seq::empty()
    }

    proof fn chunk_model_wf(&self) {
    }

    fn size(&self) -> (r: usize) {
        0
    }

    fn count(&self) -> (r: usize) {
        0
    }

    fn fill_bytes<'a, F: FillBytes<'a>>(&'a self, dst: &mut F) {
        proof {
            assert(old(dst).chunks() + Seq::<Seq<u8>>::empty() =~= old(dst).chunks());
        }
    }
}

// ==== ownership-transparent wrappers ====

impl<T: AtomicBytes + ?Sized> AtomicBytes for &T {
    open spec fn chunk_model(&self) -> Seq<Seq<u8>> {
        (**self).chunk_model()
    }

    proof fn chunk_model_wf(&self) {
        (**self).chunk_model_wf();
    }

    fn size(&self) -> (r: usize) {
        (**self).size()
    }

    fn count(&self) -> (r: usize) {
        (**self).count()
    }

    fn fill_bytes<'a, F: FillBytes<'a>>(&'a self, dst: &mut F) {
        (**self).fill_bytes(dst)
    }
}

impl<T: AtomicBytes + ?Sized> AtomicBytes for Box<T> {
    open spec fn chunk_model(&self) -> Seq<Seq<u8>> {
        (**self).chunk_model()
    }

    proof fn chunk_model_wf(&self) {
        (**self).chunk_model_wf();
    }

    fn size(&self) -> (r: usize) {
        (**self).size()
    }

    fn count(&self) -> (r: usize) {
        (**self).count()
    }

    fn fill_bytes<'a, F: FillBytes<'a>>(&'a self, dst: &mut F) {
        (**self).fill_bytes(dst)
    }
}

impl<T: AtomicBytes + ?Sized> AtomicBytes for &mut T {
    open spec fn chunk_model(&self) -> Seq<Seq<u8>> {
        (**self).chunk_model()
    }

    proof fn chunk_model_wf(&self) {
        (**self).chunk_model_wf();
    }

    fn size(&self) -> (r: usize) {
        (**self).size()
    }

    fn count(&self) -> (r: usize) {
        (**self).count()
    }

    fn fill_bytes<'a, F: FillBytes<'a>>(&'a self, dst: &mut F) {
        (**self).fill_bytes(dst)
    }
}

impl<T: AtomicBytes + ?Sized> AtomicBytes for std::rc::Rc<T> {
    open spec fn chunk_model(&self) -> Seq<Seq<u8>> {
        (**self).chunk_model()
    }

    proof fn chunk_model_wf(&self) {
        (**self).chunk_model_wf();
    }

    fn size(&self) -> (r: usize) {
        (**self).size()
    }

    fn count(&self) -> (r: usize) {
        (**self).count()
    }

    fn fill_bytes<'a, F: FillBytes<'a>>(&'a self, dst: &mut F) {
        (**self).fill_bytes(dst)
    }
}

impl<T: AtomicBytes + ?Sized> AtomicBytes for std::sync::Arc<T> {
    open spec fn chunk_model(&self) -> Seq<Seq<u8>> {
        (**self).chunk_model()
    }

    proof fn chunk_model_wf(&self) {
        (**self).chunk_model_wf();
    }

    fn size(&self) -> (r: usize) {
        (**self).size()
    }

    fn count(&self) -> (r: usize) {
        (**self).count()
    }

    fn fill_bytes<'a, F: FillBytes<'a>>(&'a self, dst: &mut F) {
        (**self).fill_bytes(dst)
    }
}

// ==== optional values ====

impl<T: AtomicBytes> AtomicBytes for Option<T> {
    open spec fn chunk_model(&self) -> Seq<Seq<u8>> {
        match self {
            Some(t) => t.chunk_model(),
            None => Seq::empty(),
        }
    }

    proof fn chunk_model_wf(&self) {
        match self {
            Some(t) => t.chunk_model_wf(),
            None => (),
        }
    }

    fn size(&self) -> (r: usize) {
        match self {
            Some(t) => t.size(),
            None => 0,
        }
    }

    fn count(&self) -> (r: usize) {
        match self {
            Some(t) => t.count(),
            None => 0,
        }
    }

    fn fill_bytes<'a, F: FillBytes<'a>>(&'a self, dst: &mut F) {
        match self {
            Some(t) => t.fill_bytes(dst),
            None => {
                proof {
                    assert(old(dst).chunks() + Seq::<Seq<u8>>::empty() =~= old(dst).chunks());
                }
            },
        }
    }
}

// ==== two-variant sums ====

impl<L: AtomicBytes, R: AtomicBytes> AtomicBytes for Either<L, R> {
    open spec fn chunk_model(&self) -> Seq<Seq<u8>> {
        match self {
            Either::Left(l) => l.chunk_model(),
            Either::Right(r) => r.chunk_model(),
        }
    }

    proof fn chunk_model_wf(&self) {
        match self {
            Either::Left(l) => l.chunk_model_wf(),
            Either::Right(r) => r.chunk_model_wf(),
        }
    }

    fn size(&self) -> (r: usize) {
        match self {
            Either::Left(l) => l.size(),
            Either::Right(r) => r.size(),
        }
    }

    fn count(&self) -> (r: usize) {
        match self {
            Either::Left(l) => l.count(),
            Either::Right(r) => r.count(),
        }
    }

    fn fill_bytes<'a, F: FillBytes<'a>>(&'a self, dst: &mut F) {
        match self {
            Either::Left(l) => l.fill_bytes(dst),
            Either::Right(r) => r.fill_bytes(dst),
        }
    }
}

// ==== ordered sequences ====

/// The concatenated chunk models of a sequence of values, in iteration order.
pub open spec fn concat_models<T: AtomicBytes>(s: Seq<T>) -> Seq<Seq<u8>>
    decreases s.len(),
{
    if s.len() == 0 {
        Seq::empty()
    } else {
        concat_models(s.drop_last()) + s.last().chunk_model()
    }
}

/// One step of `concat_models` over a growing prefix.
pub proof fn lemma_concat_models_take_succ<T: AtomicBytes>(s: Seq<T>, i: int)
    requires
        0 <= i < s.len(),
    ensures
        concat_models(s.take(i + 1)) == concat_models(s.take(i)) + s[i].chunk_model(),
{
    assert(s.take(i + 1).drop_last() =~= s.take(i));
    assert(s.take(i + 1).last() == s[i]);
}

/// A prefix of a sequence contributes no more chunks, and no more bytes,
/// than the whole.
pub proof fn lemma_concat_models_prefix<T: AtomicBytes>(s: Seq<T>, i: int)
    requires
        0 <= i <= s.len(),
    ensures
        concat_models(s.take(i)).len() <= concat_models(s).len(),
        total_len(concat_models(s.take(i))) <= total_len(concat_models(s)),
    decreases s.len() - i,
{
    if i == s.len() {
        assert(s.take(i) =~= s);
    } else {
        lemma_concat_models_take_succ(s, i);
        lemma_total_len_add(concat_models(s.take(i)), s[i].chunk_model());
        lemma_concat_models_prefix(s, i + 1);
    }
}

impl<T: AtomicBytes> AtomicBytes for [T] {
    open spec fn chunk_model(&self) -> Seq<Seq<u8>> {
        concat_models(self@)
    }

    proof fn chunk_model_wf(&self) {
        lemma_concat_models_wf(self@);
    }

    fn size(&self) -> (r: usize) {
        let mut acc: usize = 0;
        let n = self.len();
        proof {
            assert(self@.take(0) =~= Seq::<T>::empty());
        }
        for i in 0..n
            invariant
                n == self@.len(),
                total_len(concat_models(self@)) <= usize::MAX,
                acc == total_len(concat_models(self@.take(i as int))),
        {
            proof {
                lemma_concat_models_take_succ(self@, i as int);
                lemma_concat_models_prefix(self@, i + 1);
                lemma_total_len_add(concat_models(self@.take(i as int)), self@[i as int].chunk_model());
            }
            let item = vstd::slice::slice_index_get(self, i);
            acc = acc + item.size();
        }
        proof {
            assert(self@.take(n as int) =~= self@);
        }
        acc
    }

    fn count(&self) -> (r: usize) {
        let mut acc: usize = 0;
        let n = self.len();
        proof {
            assert(self@.take(0) =~= Seq::<T>::empty());
        }
        for i in 0..n
            invariant
                n == self@.len(),
                concat_models(self@).len() <= usize::MAX,
                acc == concat_models(self@.take(i as int)).len(),
        {
            proof {
                lemma_concat_models_take_succ(self@, i as int);
                lemma_concat_models_prefix(self@, i + 1);
            }
            let item = vstd::slice::slice_index_get(self, i);
            acc = acc + item.count();
        }
        proof {
            assert(self@.take(n as int) =~= self@);
        }
        acc
    }

    fn fill_bytes<'a, F: FillBytes<'a>>(&'a self, dst: &mut F) {
        let n = self.len();
        proof {
            assert(self@.take(0) =~= Seq::<T>::empty());
            assert(old(dst).chunks() + concat_models(self@.take(0)) =~= old(dst).chunks());
        }
        for i in 0..n
            invariant
                n == self@.len(),
                dst.chunks() == old(dst).chunks() + concat_models(self@.take(i as int)),
        {
            let item = vstd::slice::slice_index_get(self, i);
            item.fill_bytes(dst);
            proof {
                lemma_concat_models_take_succ(self@, i as int);
                assert(old(dst).chunks() + concat_models(self@.take(i as int))
                    + self@[i as int].chunk_model() =~= old(dst).chunks() + concat_models(
                    self@.take(i + 1),
                ));
            }
        }
        proof {
            assert(self@.take(n as int) =~= self@);
        }
    }
}

/// Every chunk of a concatenated model is non-empty.
pub proof fn lemma_concat_models_wf<T: AtomicBytes>(s: Seq<T>)
    ensures
        forall|i: int|
            0 <= i < concat_models(s).len() ==> #[trigger] concat_models(s)[i].len() > 0,
    decreases s.len(),
{
    if s.len() > 0 {
        lemma_concat_models_wf(s.drop_last());
        s.last().chunk_model_wf();
        let a = concat_models(s.drop_last());
        let b = s.last().chunk_model();
        assert(concat_models(s) == a + b);
        assert forall|i: int|
            0 <= i < concat_models(s).len() implies #[trigger] concat_models(s)[i].len() > 0 by {
            if i < a.len() {
                assert(concat_models(s)[i] == a[i]);
            } else {
                assert(concat_models(s)[i] == b[i - a.len()]);
            }
        }
    }
}

impl<T: AtomicBytes> AtomicBytes for Vec<T> {
    open spec fn chunk_model(&self) -> Seq<Seq<u8>> {
        concat_models(self@)
    }

    proof fn chunk_model_wf(&self) {
        lemma_concat_models_wf(self@);
    }

    fn size(&self) -> (r: usize) {
        self.as_slice().size()
    }

    fn count(&self) -> (r: usize) {
        self.as_slice().count()
    }

    fn fill_bytes<'a, F: FillBytes<'a>>(&'a self, dst: &mut F) {
        self.as_slice().fill_bytes(dst)
    }
}

// ==== tuples ====

impl<A: AtomicBytes> AtomicBytes for (A,) {
    open spec fn chunk_model(&self) -> Seq<Seq<u8>> {
        self.0.chunk_model()
    }

    proof fn chunk_model_wf(&self) {
        self.0.chunk_model_wf();
    }

    fn size(&self) -> (r: usize) {
        self.0.size()
    }

    fn count(&self) -> (r: usize) {
        self.0.count()
    }

    fn fill_bytes<'a, F: FillBytes<'a>>(&'a self, dst: &mut F) {
        self.0.fill_bytes(dst)
    }
}


impl<A: AtomicBytes, B: AtomicBytes> AtomicBytes for (A, B) {
    open spec fn chunk_model(&self) -> Seq<Seq<u8>> {
        self.0.chunk_model() + self.1.chunk_model()
    }

    proof fn chunk_model_wf(&self) {
        self.0.chunk_model_wf();
        self.1.chunk_model_wf();
    }

    fn size(&self) -> (r: usize) {
        proof {
            lemma_total_len_add(self.0.chunk_model(), self.1.chunk_model());
        }
        self.0.size() + self.1.size()
    }

    fn count(&self) -> (r: usize) {
        self.0.count() + self.1.count()
    }

    fn fill_bytes<'a, F: FillBytes<'a>>(&'a self, dst: &mut F) {
        self.0.fill_bytes(dst);
        self.1.fill_bytes(dst);
        proof {
            assert(old(dst).chunks() + self.0.chunk_model() + self.1.chunk_model()
                =~= old(dst).chunks() + (self.0.chunk_model() + self.1.chunk_model()));
        }
    }
}

impl<A: AtomicBytes, B: AtomicBytes, C: AtomicBytes> AtomicBytes for (A, B, C) {
    open spec fn chunk_model(&self) -> Seq<Seq<u8>> {
        self.0.chunk_model() + self.1.chunk_model() + self.2.chunk_model()
    }

    proof fn chunk_model_wf(&self) {
        self.0.chunk_model_wf();
        self.1.chunk_model_wf();
        self.2.chunk_model_wf();
    }

    fn size(&self) -> (r: usize) {
        proof {
            lemma_total_len_add(self.0.chunk_model(), self.1.chunk_model());
            lemma_total_len_add(
                self.0.chunk_model() + self.1.chunk_model(),
                self.2.chunk_model(),
            );
        }
        self.0.size() + self.1.size() + self.2.size()
    }

    fn count(&self) -> (r: usize) {
        self.0.count() + self.1.count() + self.2.count()
    }

    fn fill_bytes<'a, F: FillBytes<'a>>(&'a self, dst: &mut F) {
        self.0.fill_bytes(dst);
        self.1.fill_bytes(dst);
        self.2.fill_bytes(dst);
        proof {
            assert(old(dst).chunks() + self.0.chunk_model() + self.1.chunk_model()
                + self.2.chunk_model() =~= old(dst).chunks() + (self.0.chunk_model()
                + self.1.chunk_model() + self.2.chunk_model()));
        }
    }
}


impl<A: AtomicBytes, B: AtomicBytes, C: AtomicBytes, D: AtomicBytes> AtomicBytes for (A, B, C, D) {
    open spec fn chunk_model(&self) -> Seq<Seq<u8>> {
        self.0.chunk_model() + self.1.chunk_model() + self.2.chunk_model() + self.3.chunk_model()
    }

    proof fn chunk_model_wf(&self) {
        self.0.chunk_model_wf();
        self.1.chunk_model_wf();
        self.2.chunk_model_wf();
        self.3.chunk_model_wf();
    }

    fn size(&self) -> (r: usize) {
        proof {
            lemma_total_len_add(self.0.chunk_model(), self.1.chunk_model());
            lemma_total_len_add(self.0.chunk_model() + self.1.chunk_model(), self.2.chunk_model());
            lemma_total_len_add(
                self.0.chunk_model() + self.1.chunk_model() + self.2.chunk_model(),
                self.3.chunk_model(),
            );
        }
        self.0.size() + self.1.size() + self.2.size() + self.3.size()
    }

    fn count(&self) -> (r: usize) {
        self.0.count() + self.1.count() + self.2.count() + self.3.count()
    }

    fn fill_bytes<'a, F: FillBytes<'a>>(&'a self, dst: &mut F) {
        self.0.fill_bytes(dst);
        self.1.fill_bytes(dst);
        self.2.fill_bytes(dst);
        self.3.fill_bytes(dst);
        proof {
            assert(old(dst).chunks() + self.0.chunk_model() + self.1.chunk_model()
                + self.2.chunk_model() + self.3.chunk_model() =~= old(dst).chunks() + (
            self.0.chunk_model() + self.1.chunk_model() + self.2.chunk_model()
                + self.3.chunk_model()));
        }
    }
}

impl<
    A: AtomicBytes,
    B: AtomicBytes,
    C: AtomicBytes,
    D: AtomicBytes,
    E: AtomicBytes,
> AtomicBytes for (A, B, C, D, E) {
    open spec fn chunk_model(&self) -> Seq<Seq<u8>> {
        self.0.chunk_model() + self.1.chunk_model() + self.2.chunk_model() + self.3.chunk_model()
            + self.4.chunk_model()
    }

    proof fn chunk_model_wf(&self) {
        self.0.chunk_model_wf();
        self.1.chunk_model_wf();
        self.2.chunk_model_wf();
        self.3.chunk_model_wf();
        self.4.chunk_model_wf();
    }

    fn size(&self) -> (r: usize) {
        proof {
            lemma_total_len_add(self.0.chunk_model(), self.1.chunk_model());
            lemma_total_len_add(self.0.chunk_model() + self.1.chunk_model(), self.2.chunk_model());
            lemma_total_len_add(
                self.0.chunk_model() + self.1.chunk_model() + self.2.chunk_model(),
                self.3.chunk_model(),
            );
            lemma_total_len_add(
                self.0.chunk_model() + self.1.chunk_model() + self.2.chunk_model()
                    + self.3.chunk_model(),
                self.4.chunk_model(),
            );
        }
        self.0.size() + self.1.size() + self.2.size() + self.3.size() + self.4.size()
    }

    fn count(&self) -> (r: usize) {
        self.0.count() + self.1.count() + self.2.count() + self.3.count() + self.4.count()
    }

    fn fill_bytes<'a, F: FillBytes<'a>>(&'a self, dst: &mut F) {
        self.0.fill_bytes(dst);
        self.1.fill_bytes(dst);
        self.2.fill_bytes(dst);
        self.3.fill_bytes(dst);
        self.4.fill_bytes(dst);
        proof {
            assert(old(dst).chunks() + self.0.chunk_model() + self.1.chunk_model()
                + self.2.chunk_model() + self.3.chunk_model() + self.4.chunk_model() =~= old(
            dst).chunks() + (self.0.chunk_model() + self.1.chunk_model() + self.2.chunk_model()
                + self.3.chunk_model() + self.4.chunk_model()));
        }
    }
}

// ==== text leaves ====

impl AtomicBytes for str {
    open spec fn chunk_model(&self) -> Seq<Seq<u8>> {
        leaf_model(vstd::utf8::encode_utf8(self@))
    }

    proof fn chunk_model_wf(&self) {
    }

    fn size(&self) -> (r: usize) {
        self.as_bytes().size()
    }

    fn count(&self) -> (r: usize) {
        self.as_bytes().count()
    }

    fn fill_bytes<'a, F: FillBytes<'a>>(&'a self, dst: &mut F) {
        self.as_bytes().fill_bytes(dst)
    }
}

impl AtomicBytes for String {
    open spec fn chunk_model(&self) -> Seq<Seq<u8>> {
        leaf_model(vstd::utf8::encode_utf8(self@))
    }

    proof fn chunk_model_wf(&self) {
    }

    fn size(&self) -> (r: usize) {
        self.as_str().size()
    }

    fn count(&self) -> (r: usize) {
        self.as_str().count()
    }

    fn fill_bytes<'a, F: FillBytes<'a>>(&'a self, dst: &mut F) {
        self.as_str().fill_bytes(dst)
    }
}

// ==== a concrete sink ====


/// A sink that collects the borrowed chunks of a fill, ready to become the
/// entries of a vectored write.
pub struct ChunkSink<'a> {
    /// The collected chunks, in the order they were put.
    pub slices: Vec<&'a [u8]>,
}

impl<'a> ChunkSink<'a> {
    /// An empty sink.
    pub fn new() -> (r: ChunkSink<'a>)
        ensures
            r.chunks() == Seq::<Seq<u8>>::empty(),
            r.slices@.len() == 0,
    {
        let r = ChunkSink { slices: Vec::new() };
        proof {
            assert(r.chunks() =~= Seq::<Seq<u8>>::empty());
        }
        r
    }
}

impl<'a> FillBytes<'a> for ChunkSink<'a> {
    open spec fn chunks(&self) -> Seq<Seq<u8>> {
        self.slices@.map(|i: int, c: &[u8]| c@)
    }

    fn put(&mut self, chunk: &'a [u8]) {
        self.slices.push(chunk);
        proof {
            assert(self.chunks() =~= old(self).chunks().push(chunk@));
        }
    }
}

} // verus!
