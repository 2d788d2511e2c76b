//! Bridging between [`Cow`] and the standard library's clone-on-write
//! type, its usual conversion targets, and plain text operations.
//!
//! Every adapter here either preserves the branch (`Borrowed`/`Owned`)
//! and the content exactly, or states precisely which branch it yields.

use vstd::prelude::*;

use vstd::std_specs::cmp::{PartialEqSpec, PartialOrdSpec};
use vstd::string::StringExecFns;

use crate::{Cow, CowT, Ownable};

verus! {

/// Whether a standard clone-on-write text reference is in its borrowed
/// state. The standard type is opaque to the verifier, so its branch can
/// only be named, not inspected; the two conversion functions below are
/// the sole places that rely on what it means.
pub uninterp spec fn std_is_borrowed(c: std::borrow::Cow<str>) -> bool;

/// Relies on the two variants of `std::borrow::Cow`: rewrapping each
/// variant of this reference into the matching standard variant keeps
/// the content and the branch.
#[verifier::external_body]
pub fn into_std<'a>(c: Cow<'a, str>) -> (r: std::borrow::Cow<'a, str>)
    ensures
        r@ == c@,
        std_is_borrowed(r) == (c is Borrowed),
{
    match c {
        CowT::Borrowed(b) => std::borrow::Cow::Borrowed(b),
        CowT::Owned(o) => std::borrow::Cow::Owned(o),
    }
}

/// Relies on the two variants of `std::borrow::Cow`: rewrapping each
/// standard variant into the matching variant of this reference keeps
/// the content and the branch.
#[verifier::external_body]
pub fn from_std<'a>(c: std::borrow::Cow<'a, str>) -> (r: Cow<'a, str>)
    ensures
        r@ == c@,
        (r is Borrowed) == std_is_borrowed(c),
{
    match c {
        std::borrow::Cow::Borrowed(b) => CowT::Borrowed(b),
        std::borrow::Cow::Owned(o) => CowT::Owned(o),
    }
}

/// Law: converting a text reference to the standard clone-on-write type
/// and back reproduces the original branch and content.
pub fn std_round_trip<'a>(c: Cow<'a, str>) -> (r: Cow<'a, str>)
    ensures
        r@ == c@,
        (r is Borrowed) == (c is Borrowed),
{
    from_std(into_std(c))
}

/// Whether a standard clone-on-write byte-slice reference is in its
/// borrowed state; the byte counterpart of [`std_is_borrowed`].
pub uninterp spec fn std_bytes_is_borrowed(c: std::borrow::Cow<[u8]>) -> bool;

/// Relies on the two variants of `std::borrow::Cow`: rewrapping each
/// variant of this reference into the matching standard variant keeps
/// the content and the branch.
#[verifier::external_body]
pub fn into_std_bytes<'a>(c: Cow<'a, [u8]>) -> (r: std::borrow::Cow<'a, [u8]>)
    ensures
        r@ == c@,
        std_bytes_is_borrowed(r) == (c is Borrowed),
{
    match c {
        CowT::Borrowed(b) => std::borrow::Cow::Borrowed(b),
        CowT::Owned(o) => std::borrow::Cow::Owned(o),
    }
}

/// Relies on the two variants of `std::borrow::Cow`: rewrapping each
/// standard variant into the matching variant of this reference keeps
/// the content and the branch.
#[verifier::external_body]
pub fn from_std_bytes<'a>(c: std::borrow::Cow<'a, [u8]>) -> (r: Cow<'a, [u8]>)
    ensures
        r@ == c@,
        (r is Borrowed) == std_bytes_is_borrowed(c),
{
    match c {
        std::borrow::Cow::Borrowed(b) => CowT::Borrowed(b),
        std::borrow::Cow::Owned(o) => CowT::Owned(o),
    }
}

/// Law: converting a byte-slice reference to the standard clone-on-write
/// type and back reproduces the original branch and content.
pub fn std_round_trip_bytes<'a>(c: Cow<'a, [u8]>) -> (r: Cow<'a, [u8]>)
    ensures
        r@ == c@,
        (r is Borrowed) == (c is Borrowed),
{
    from_std_bytes(into_std_bytes(c))
}

/// Relies on the two variants of `std::borrow::Cow`: rewrapping each
/// standard variant into the matching variant of this reference keeps
/// the content.
#[verifier::external_body]
pub fn from_std_slice<'a, T: Copy + View>(c: std::borrow::Cow<'a, [T]>) -> (r: Cow<'a, [T]>)
    ensures
        r@ == c@,
{
    match c {
        std::borrow::Cow::Borrowed(b) => CowT::Borrowed(b),
        std::borrow::Cow::Owned(o) => CowT::Owned(o),
    }
}

impl<'a> From<&'a str> for Cow<'a, str> {
    fn from(v: &'a str) -> (r: Self) {
        CowT::Borrowed(v)
    }
}

impl<'a> vstd::std_specs::convert::FromSpecImpl<&'a str> for Cow<'a, str> {
    open spec fn obeys_from_spec() -> bool {
        true
    }

    open spec fn from_spec(v: &'a str) -> Self {
        CowT::Borrowed(v)
    }
}

impl<'a> From<std::string::String> for Cow<'a, str> {
    fn from(v: std::string::String) -> (r: Self) {
        CowT::Owned(v)
    }
}

impl<'a> vstd::std_specs::convert::FromSpecImpl<std::string::String> for Cow<'a, str> {
    open spec fn obeys_from_spec() -> bool {
        true
    }

    open spec fn from_spec(v: std::string::String) -> Self {
        CowT::Owned(v)
    }
}

impl<'a> From<std::borrow::Cow<'a, str>> for Cow<'a, str> {
    /// Branch-preserving: the standard reference's borrowed state carries
    /// over to the result, and so does its content.
    fn from(v: std::borrow::Cow<'a, str>) -> (r: Self)
        ensures
            r@ == v@,
            (r is Borrowed) == std_is_borrowed(v),
    {
        from_std(v)
    }
}

impl<'a> vstd::std_specs::convert::FromSpecImpl<std::borrow::Cow<'a, str>> for Cow<'a, str> {
    open spec fn obeys_from_spec() -> bool {
        false
    }

    open spec fn from_spec(v: std::borrow::Cow<'a, str>) -> Self {
        vstd::pervasive::arbitrary::<Self>()
    }
}

impl<'a, T: Copy + View> From<&'a [T]> for Cow<'a, [T]> {
    fn from(v: &'a [T]) -> (r: Self) {
        CowT::Borrowed(v)
    }
}

impl<'a, T: Copy + View> vstd::std_specs::convert::FromSpecImpl<&'a [T]> for Cow<'a, [T]> {
    open spec fn obeys_from_spec() -> bool {
        true
    }

    open spec fn from_spec(v: &'a [T]) -> Self {
        CowT::Borrowed(v)
    }
}

impl<'a, T: Copy + View> From<std::vec::Vec<T>> for Cow<'a, [T]> {
    fn from(v: std::vec::Vec<T>) -> (r: Self) {
        CowT::Owned(v)
    }
}

impl<'a, T: Copy + View> vstd::std_specs::convert::FromSpecImpl<std::vec::Vec<T>> for Cow<'a, [T]> {
    open spec fn obeys_from_spec() -> bool {
        true
    }

    open spec fn from_spec(v: std::vec::Vec<T>) -> Self {
        CowT::Owned(v)
    }
}

impl<'a, T: Copy + View> From<std::borrow::Cow<'a, [T]>> for Cow<'a, [T]> {
    /// Content-preserving; the verifier has no model of the standard
    /// reference's branch for slices, so only the content is stated.
    fn from(v: std::borrow::Cow<'a, [T]>) -> (r: Self)
        ensures
            r@ == v@,
    {
        from_std_slice(v)
    }
}

impl<'a, T: Copy + View> vstd::std_specs::convert::FromSpecImpl<std::borrow::Cow<'a, [T]>> for Cow<'a, [T]> {
    open spec fn obeys_from_spec() -> bool {
        false
    }

    open spec fn from_spec(v: std::borrow::Cow<'a, [T]>) -> Self {
        vstd::pervasive::arbitrary::<Self>()
    }
}

/// Lexicographic order of two character sequences, by code point. Since
/// UTF-8 preserves code-point order byte-wise, this is the order the
/// standard library documents for string slices.
pub open spec fn lex_cmp(a: Seq<char>, b: Seq<char>) -> core::cmp::Ordering
    decreases a.len(),
{
    if a.len() == 0 && b.len() == 0 {
        core::cmp::Ordering::Equal
    } else if a.len() == 0 {
        core::cmp::Ordering::Less
    } else if b.len() == 0 {
        core::cmp::Ordering::Greater
    } else if a[0] < b[0] {
        core::cmp::Ordering::Less
    } else if a[0] > b[0] {
        core::cmp::Ordering::Greater
    } else {
        lex_cmp(a.subrange(1, a.len() as int), b.subrange(1, b.len() as int))
    }
}

/// The lexicographic order ties exactly on equal sequences.
pub proof fn lemma_lex_cmp_equal(a: Seq<char>, b: Seq<char>)
    ensures
        (lex_cmp(a, b) == core::cmp::Ordering::Equal) <==> a == b,
    decreases a.len(),
{
    if a.len() == 0 && b.len() == 0 {
        assert(a =~= b);
    } else if a.len() != 0 && b.len() != 0 {
        let at = a.subrange(1, a.len() as int);
        let bt = b.subrange(1, b.len() as int);
        lemma_lex_cmp_equal(at, bt);
        if a[0] == b[0] {
            if at == bt {
                assert forall|i: int| 0 <= i < a.len() implies a[i] == b[i] by {
                    if i >= 1 {
                        assert(at[i - 1] == bt[i - 1]);
                    }
                }
                assert(a =~= b);
            }
            if a == b {
                assert(at =~= bt);
            }
        }
    }
}

/// Law: references are compared by content alone. Two text references
/// holding the same characters are equal under the equality spec and tie
/// under the ordering spec, whichever branch each is in.
pub proof fn lemma_deref_equivalence<'a>(a: Cow<'a, str>, b: Cow<'a, str>)
    requires
        a@ == b@,
    ensures
        a.eq_spec(&b),
        a.partial_cmp_spec(&b) == Some(core::cmp::Ordering::Equal),
{
    lemma_lex_cmp_equal(a@, b@);
}

/// Relies on string slice equality being content equality: two slices
/// are equal exactly when their character sequences are.
pub assume_specification[ <str as PartialEq<str>>::eq ](a: &str, b: &str) -> (r: bool)
    ensures
        r == (a@ == b@),
;

/// Relies on string slices being totally ordered lexicographically by
/// byte value, which for UTF-8 coincides with code-point order.
pub assume_specification[ <str as PartialOrd<str>>::partial_cmp ](a: &str, b: &str) -> (r: Option<
    core::cmp::Ordering,
>)
    ensures
        r == Some(lex_cmp(a@, b@)),
;

impl<'a> PartialEq for Cow<'a, str> {
    /// Equality goes by the dereferenced content, never by which branch
    /// holds it.
    fn eq(&self, other: &Self) -> (r: bool) {
        self.deref().eq(other.deref())
    }

    fn ne(&self, other: &Self) -> (r: bool) {
        !self.deref().eq(other.deref())
    }
}

impl<'a> vstd::std_specs::cmp::PartialEqSpecImpl for Cow<'a, str> {
    open spec fn obeys_eq_spec() -> bool {
        true
    }

    open spec fn eq_spec(&self, other: &Self) -> bool {
        self@ == other@
    }
}

impl<'a> Eq for Cow<'a, str> {

}

impl<'a> PartialOrd for Cow<'a, str> {
    /// Ordering goes by the dereferenced content, never by which branch
    /// holds it.
    fn partial_cmp(&self, other: &Self) -> (r: Option<core::cmp::Ordering>) {
        self.deref().partial_cmp(other.deref())
    }

    fn lt(&self, other: &Self) -> (r: bool) {
        matches!(self.deref().partial_cmp(other.deref()), Some(core::cmp::Ordering::Less))
    }

    fn le(&self, other: &Self) -> (r: bool) {
        !matches!(self.deref().partial_cmp(other.deref()), Some(core::cmp::Ordering::Greater))
    }

    fn gt(&self, other: &Self) -> (r: bool) {
        matches!(self.deref().partial_cmp(other.deref()), Some(core::cmp::Ordering::Greater))
    }

    fn ge(&self, other: &Self) -> (r: bool) {
        !matches!(self.deref().partial_cmp(other.deref()), Some(core::cmp::Ordering::Less))
    }
}

impl<'a> vstd::std_specs::cmp::PartialOrdSpecImpl for Cow<'a, str> {
    open spec fn obeys_partial_cmp_spec() -> bool {
        true
    }

    open spec fn partial_cmp_spec(&self, other: &Self) -> Option<core::cmp::Ordering> {
        Some(lex_cmp(self@, other@))
    }
}

impl<'a> Cow<'a, str> {
    /// Total order by content: the lexicographic order the standard
    /// library gives text, whatever branch each reference is in.
    pub fn cmp(&self, other: &Self) -> (r: core::cmp::Ordering)
        ensures
            r == lex_cmp(self@, other@),
    {
        match self.deref().partial_cmp(other.deref()) {
            Some(o) => o,
            None => vstd::pervasive::unreached(),
        }
    }

    /// Appends a plain view in place.
    ///
    /// An empty left operand simply takes over the right operand as a
    /// borrow (no allocation); an empty right operand leaves the left
    /// operand untouched (no materialization). Otherwise the reference
    /// materializes (at most once) and the view is appended to the owned
    /// string.
    pub fn add_assign(&mut self, rhs: &'a str)
        ensures
            final(self)@ == old(self)@ + rhs@,
            old(self)@.len() == 0 ==> *final(self) == CowT::<'a, str, String>::Borrowed(rhs),
            old(self)@.len() != 0 && rhs@.len() == 0 ==> *final(self) == *old(self),
            old(self)@.len() != 0 && rhs@.len() != 0 ==> *final(self) is Owned,
    {
        if self.deref().is_empty() {
            *self = CowT::Borrowed(rhs);
            proof {
                assert(old(self)@ + rhs@ =~= rhs@);
            }
        } else if !rhs.is_empty() {
            let m = self.to_mut();
            m.append(rhs);
        } else {
            proof {
                assert(old(self)@ + rhs@ =~= old(self)@);
            }
        }
    }

    /// Appends another reference in place. An empty left operand takes
    /// over the right operand, branch included; an empty right operand
    /// leaves the left untouched; otherwise the left materializes and
    /// the right's content is appended.
    pub fn add_assign_cow(&mut self, rhs: Cow<'a, str>)
        ensures
            final(self)@ == old(self)@ + rhs@,
            old(self)@.len() == 0 ==> *final(self) == rhs,
            old(self)@.len() != 0 && rhs@.len() == 0 ==> *final(self) == *old(self),
            old(self)@.len() != 0 && rhs@.len() != 0 ==> *final(self) is Owned,
    {
        if self.deref().is_empty() {
            *self = rhs;
            proof {
                assert(old(self)@ + rhs@ =~= rhs@);
            }
        } else {
            let rv = rhs.deref();
            if !rv.is_empty() {
                let m = self.to_mut();
                m.append(rv);
            } else {
                proof {
                    assert(old(self)@ + rhs@ =~= old(self)@);
                }
            }
        }
    }

    /// Appends a standard clone-on-write reference in place, with the
    /// same shortcuts as [`Cow::add_assign_cow`]; an empty left operand
    /// takes the right operand over branch-for-branch.
    pub fn add_assign_std(&mut self, rhs: std::borrow::Cow<'a, str>)
        ensures
            final(self)@ == old(self)@ + rhs@,
            old(self)@.len() == 0 ==> final(self)@ == rhs@ && ((*final(self) is Borrowed)
                == std_is_borrowed(rhs)),
            old(self)@.len() != 0 && rhs@.len() == 0 ==> *final(self) == *old(self),
            old(self)@.len() != 0 && rhs@.len() != 0 ==> *final(self) is Owned,
    {
        self.add_assign_cow(from_std(rhs));
    }

    /// Concatenation: [`Cow::add_assign`] on a value.
    pub fn add(self, rhs: &'a str) -> (r: Self)
        ensures
            r@ == self@ + rhs@,
            self@.len() == 0 ==> r == CowT::<'a, str, String>::Borrowed(rhs),
            self@.len() != 0 && rhs@.len() == 0 ==> r == self,
            self@.len() != 0 && rhs@.len() != 0 ==> r is Owned,
    {
        let mut s = self;
        s.add_assign(rhs);
        s
    }

    /// Concatenation: [`Cow::add_assign_cow`] on a value.
    pub fn add_cow(self, rhs: Cow<'a, str>) -> (r: Self)
        ensures
            r@ == self@ + rhs@,
            self@.len() == 0 ==> r == rhs,
            self@.len() != 0 && rhs@.len() == 0 ==> r == self,
            self@.len() != 0 && rhs@.len() != 0 ==> r is Owned,
    {
        let mut s = self;
        s.add_assign_cow(rhs);
        s
    }

    /// Concatenation: [`Cow::add_assign_std`] on a value.
    pub fn add_std(self, rhs: std::borrow::Cow<'a, str>) -> (r: Self)
        ensures
            r@ == self@ + rhs@,
            self@.len() == 0 ==> r@ == rhs@ && ((r is Borrowed) == std_is_borrowed(rhs)),
            self@.len() != 0 && rhs@.len() == 0 ==> r == self,
            self@.len() != 0 && rhs@.len() != 0 ==> r is Owned,
    {
        let mut s = self;
        s.add_assign_std(rhs);
        s
    }
}

/// Concatenation with the standard reference on the left: the same
/// shortcuts as [`Cow::add_cow`], normalized through this type so that
/// an empty left operand takes the right operand's branch over and an
/// empty right operand leaves the left operand's branch alone.
pub fn std_add_cow<'a>(lhs: std::borrow::Cow<'a, str>, rhs: Cow<'a, str>) -> (r: std::borrow::Cow<
    'a,
    str,
>)
    ensures
        r@ == lhs@ + rhs@,
        lhs@.len() == 0 ==> std_is_borrowed(r) == (rhs is Borrowed),
        lhs@.len() != 0 && rhs@.len() == 0 ==> std_is_borrowed(r) == std_is_borrowed(lhs),
        lhs@.len() != 0 && rhs@.len() != 0 ==> !std_is_borrowed(r),
{
    into_std(from_std(lhs).add_cow(rhs))
}

/// Whether two byte slices hold the same bytes.
fn bytes_eq(a: &[u8], b: &[u8]) -> (r: bool)
    ensures
        r == (a@ == b@),
{
    if a.len() != b.len() {
        proof {
            if a@ == b@ {
                assert(a@.len() == b@.len());
            }
        }
        return false;
    }
    let n = a.len();
    let mut i: usize = 0;
    while i < n
        invariant
            n == a@.len() == b@.len(),
            i <= n,
            forall|k: int| 0 <= k < i ==> a@[k] == b@[k],
        decreases n - i,
    {
        if a[i] != b[i] {
            return false;
        }
        i = i + 1;
    }
    proof {
        assert(a@ =~= b@);
    }
    true
}

impl<'a> PartialEq for Cow<'a, [u8]> {
    /// Equality goes by the dereferenced bytes, never by which branch
    /// holds them.
    fn eq(&self, other: &Self) -> (r: bool) {
        bytes_eq(self.deref(), other.deref())
    }

    fn ne(&self, other: &Self) -> (r: bool) {
        !bytes_eq(self.deref(), other.deref())
    }
}

impl<'a> vstd::std_specs::cmp::PartialEqSpecImpl for Cow<'a, [u8]> {
    open spec fn obeys_eq_spec() -> bool {
        true
    }

    open spec fn eq_spec(&self, other: &Self) -> bool {
        self@ == other@
    }
}

impl<'a> Eq for Cow<'a, [u8]> {

}

impl<'a> PartialEq<&str> for Cow<'a, str> {
    /// A reference equals a plain view exactly when the contents match.
    fn eq(&self, other: &&str) -> (r: bool) {
        self.deref().eq(*other)
    }

    fn ne(&self, other: &&str) -> (r: bool) {
        !self.deref().eq(*other)
    }
}

impl<'a> vstd::std_specs::cmp::PartialEqSpecImpl<&str> for Cow<'a, str> {
    open spec fn obeys_eq_spec() -> bool {
        true
    }

    open spec fn eq_spec(&self, other: &&str) -> bool {
        self@ == (*other)@
    }
}

/// The concatenation of a sequence of character sequences, front to back.
pub open spec fn concat_of(views: Seq<Seq<char>>) -> Seq<char>
    decreases views.len(),
{
    if views.len() == 0 {
        Seq::empty()
    } else {
        views[0] + concat_of(views.subrange(1, views.len() as int))
    }
}

/// Concatenating one more sequence at the back appends it to the
/// concatenation of the front.
pub proof fn lemma_concat_of_push(views: Seq<Seq<char>>, last: Seq<char>)
    ensures
        concat_of(views.push(last)) == concat_of(views) + last,
    decreases views.len(),
{
    let pushed = views.push(last);
    if views.len() == 0 {
        assert(pushed.subrange(1, pushed.len() as int) =~= Seq::<Seq<char>>::empty());
        assert(concat_of(pushed) == pushed[0] + concat_of(Seq::<Seq<char>>::empty()));
        assert(concat_of(pushed) =~= concat_of(views) + last);
    } else {
        let tail = views.subrange(1, views.len() as int);
        lemma_concat_of_push(tail, last);
        assert(pushed.subrange(1, pushed.len() as int) =~= tail.push(last));
        assert(views[0] + (concat_of(tail) + last) =~= (views[0] + concat_of(tail)) + last);
    }
}

/// Appends the content of each text reference in a sequence to a
/// growable string, one append per element.
pub fn string_extend<'a>(dst: &mut std::string::String, items: Vec<Cow<'a, str>>)
    ensures
        final(dst)@ == old(dst)@ + concat_of(items@.map_values(|c: Cow<'a, str>| c@)),
{
    let ghost all = items@.map_values(|c: Cow<'a, str>| c@);
    let n = items.len();
    proof {
        assert(all.subrange(0, 0) =~= Seq::<Seq<char>>::empty());
        assert(old(dst)@ + concat_of(all.subrange(0, 0)) =~= old(dst)@);
    }
    for i in 0..n
        invariant
            n == items@.len(),
            all == items@.map_values(|c: Cow<'a, str>| c@),
            dst@ == old(dst)@ + concat_of(all.subrange(0, i as int)),
    {
        dst.append(items[i].deref());
        proof {
            assert(all.subrange(0, i + 1) =~= all.subrange(0, i as int).push(all[i as int]));
            lemma_concat_of_push(all.subrange(0, i as int), all[i as int]);
            assert((old(dst)@ + concat_of(all.subrange(0, i as int))) + all[i as int] =~= old(
                dst,
            )@ + (concat_of(all.subrange(0, i as int)) + all[i as int]));
        }
    }
    proof {
        assert(all.subrange(0, n as int) =~= all);
    }
}

impl<'a> Cow<'a, str> {
    /// Builds a reference by concatenating a sequence of views, as
    /// collecting into the standard clone-on-write type does: the result
    /// is always owned.
    pub fn from_iter(parts: &Vec<&str>) -> (r: Self)
        ensures
            r is Owned,
            r@ == concat_of(parts@.map_values(|p: &str| p@)),
    {
        let ghost all = parts@.map_values(|p: &str| p@);
        let mut s = std::string::String::new();
        let n = parts.len();
        proof {
            assert(all.subrange(0, 0) =~= Seq::<Seq<char>>::empty());
        }
        for i in 0..n
            invariant
                n == parts@.len(),
                all == parts@.map_values(|p: &str| p@),
                s@ == concat_of(all.subrange(0, i as int)),
        {
            s.append(parts[i]);
            proof {
                assert(all.subrange(0, i + 1) =~= all.subrange(0, i as int).push(all[i as int]));
                lemma_concat_of_push(all.subrange(0, i as int), all[i as int]);
            }
        }
        proof {
            assert(all.subrange(0, n as int) =~= all);
        }
        CowT::Owned(s)
    }
}

impl<'a, B: ?Sized + Ownable> Cow<'a, B> {
    /// The reference as a plain view; same projection as [`Cow::deref`].
    pub fn as_ref(&self) -> (b: &B)
        ensures
            b@ == self@,
    {
        self.deref()
    }

    /// Borrows the view out of the reference; same projection as
    /// [`Cow::deref`].
    pub fn borrow(&self) -> (b: &B)
        ensures
            b@ == self@,
    {
        self.deref()
    }
}

/// Relies on `String::into_boxed_str`: the same characters, boxed.
#[verifier::external_body]
fn boxed_str(s: std::string::String) -> (b: Box<str>)
    ensures
        b@ == s@,
{
    s.into_boxed_str()
}

/// Relies on `Vec::into_boxed_slice`: the same elements, boxed.
#[verifier::external_body]
fn boxed_slice<T>(v: Vec<T>) -> (b: Box<[T]>)
    ensures
        b@ == v@,
{
    v.into_boxed_slice()
}

impl<'a> From<Cow<'a, str>> for std::string::String {
    /// Extraction into an owned string: the content carries over, and an
    /// owned reference gives up exactly its held value.
    fn from(v: Cow<'a, str>) -> (r: Self)
        ensures
            r@ == v@,
            v matches CowT::Owned(o) ==> r == o,
    {
        v.into_owned()
    }
}

impl<'a> vstd::std_specs::convert::FromSpecImpl<Cow<'a, str>> for std::string::String {
    open spec fn obeys_from_spec() -> bool {
        false
    }

    open spec fn from_spec(v: Cow<'a, str>) -> Self {
        vstd::pervasive::arbitrary::<Self>()
    }
}

impl<'a, T: Copy + View> From<Cow<'a, [T]>> for Vec<T> {
    /// Extraction into an owned vector: the content carries over, and an
    /// owned reference gives up exactly its held value.
    fn from(v: Cow<'a, [T]>) -> (r: Self)
        ensures
            r@ == v@,
            v matches CowT::Owned(o) ==> r == o,
    {
        v.into_owned()
    }
}

impl<'a, T: Copy + View> vstd::std_specs::convert::FromSpecImpl<Cow<'a, [T]>> for Vec<T> {
    open spec fn obeys_from_spec() -> bool {
        false
    }

    open spec fn from_spec(v: Cow<'a, [T]>) -> Self {
        vstd::pervasive::arbitrary::<Self>()
    }
}

impl<'a> From<Cow<'a, str>> for Box<str> {
    /// Extraction into a boxed view: the content carries over.
    fn from(v: Cow<'a, str>) -> (r: Self)
        ensures
            r@ == v@,
    {
        boxed_str(v.into_owned())
    }
}

impl<'a> vstd::std_specs::convert::FromSpecImpl<Cow<'a, str>> for Box<str> {
    open spec fn obeys_from_spec() -> bool {
        false
    }

    open spec fn from_spec(v: Cow<'a, str>) -> Self {
        vstd::pervasive::arbitrary::<Self>()
    }
}

impl<'a, T: Copy + View> From<Cow<'a, [T]>> for Box<[T]> {
    /// Extraction into a boxed slice: the content carries over.
    fn from(v: Cow<'a, [T]>) -> (r: Self)
        ensures
            r@ == v@,
    {
        boxed_slice(v.into_owned())
    }
}

impl<'a, T: Copy + View> vstd::std_specs::convert::FromSpecImpl<Cow<'a, [T]>> for Box<[T]> {
    open spec fn obeys_from_spec() -> bool {
        false
    }

    open spec fn from_spec(v: Cow<'a, [T]>) -> Self {
        vstd::pervasive::arbitrary::<Self>()
    }
}

impl<'a> Default for Cow<'a, str> {
    /// A default reference starts out owned, holding the owned
    /// counterpart's default (the empty string).
    fn default() -> (r: Self)
        ensures
            r is Owned,
            r@ == Seq::<char>::empty(),
    {
        CowT::Owned(std::string::String::new())
    }
}

impl<'a, T: Copy + View> Default for Cow<'a, [T]> {
    /// A default reference starts out owned, holding the owned
    /// counterpart's default (the empty vector).
    fn default() -> (r: Self)
        ensures
            r is Owned,
            r@ == Seq::<T>::empty(),
    {
        CowT::Owned(std::vec::Vec::new())
    }
}

} // verus!
