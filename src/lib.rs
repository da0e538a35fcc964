use vstd::prelude::*;
use vstd::std_specs::cmp::PartialEqSpec;
use vstd::string::StringExecFns;

verus! {

/// A handle on a persistent stack: empty, or one frame that holds the top
/// value and borrows the handle it was pushed onto.
pub struct Stack<'a, T: 'a> {
    frame: Option<StackFrame<'a, T>>,
}

struct StackFrame<'a, T: 'a> {
    parent: &'a Stack<'a, T>,
    value: T,
}

/// Walks the values of a handle, top first.
pub struct StackIter<'a, T: 'a> {
    current: &'a Stack<'a, T>,
}

/// Walks the non-empty handles from a handle down to the root, top first.
pub struct StackFrameIter<'a, T: 'a> {
    current: &'a Stack<'a, T>,
}

impl<'a, T> Stack<'a, T> {
    /// The values of the handle, top first.
    pub closed spec fn values(self) -> Seq<T>
        decreases self,
    {
        match self.frame {
            None => Seq::empty(),
            Some(f) => seq![f.value] + f.parent.values(),
        }
    }
}

impl<'a, T> View for Stack<'a, T> {
    type V = Seq<T>;

    closed spec fn view(&self) -> Seq<T> {
        self.values()
    }
}

/// The top value of a handle whose values are `values`, if any.
pub open spec fn top_of<T>(values: Seq<T>) -> Option<T> {
    if values.len() == 0 {
        None
    } else {
        Some(values[0])
    }
}

/// The values of a handle after `vs` were pushed onto a handle with values
/// `base`, `vs[0]` first.
pub open spec fn pushed<T>(base: Seq<T>, vs: Seq<T>) -> Seq<T>
    decreases vs.len(),
{
    if vs.len() == 0 {
        base
    } else {
        seq![vs.last()] + pushed(base, vs.drop_last())
    }
}

/// `copy` holds the values of a clone of a handle with values `orig`: a clone
/// of the top value over the same values below it.
pub open spec fn clone_of<T: Clone>(orig: Seq<T>, copy: Seq<T>) -> bool {
    &&& copy.len() == orig.len()
    &&& orig.len() > 0 ==> cloned::<T>(orig[0], copy[0]) && copy.drop_first()
        == orig.drop_first()
}

/// Pushing values one at a time onto a handle puts them above its values in
/// the reverse order: the last one pushed is met first.
pub proof fn lemma_pushed_reversed<T>(base: Seq<T>, vs: Seq<T>)
    ensures
        pushed(base, vs) == vs.reverse() + base,
    decreases vs.len(),
{
    if vs.len() > 0 {
        lemma_pushed_reversed(base, vs.drop_last());
        assert(pushed(base, vs) =~= vs.reverse() + base);
    } else {
        assert(pushed(base, vs) =~= vs.reverse() + base);
    }
}

/// Two handles built by pushing values onto empty handles have the same
/// values exactly when the same values were pushed in the same order.
pub proof fn lemma_same_pushes<T>(vs: Seq<T>, ws: Seq<T>)
    ensures
        pushed(Seq::empty(), vs) == pushed(Seq::empty(), ws) <==> vs == ws,
{
    lemma_pushed_reversed(Seq::<T>::empty(), vs);
    lemma_pushed_reversed(Seq::<T>::empty(), ws);
    assert(vs.reverse() + Seq::empty() =~= vs.reverse());
    assert(ws.reverse() + Seq::empty() =~= ws.reverse());
    if vs.reverse() == ws.reverse() {
        assert(vs.len() == vs.reverse().len());
        assert(ws.len() == ws.reverse().len());
        assert forall|i: int| 0 <= i < vs.len() implies vs[i] == ws[i] by {
            assert(vs.reverse()[vs.len() - 1 - i] == vs[i]);
            assert(ws.reverse()[ws.len() - 1 - i] == ws[i]);
        }
        assert(vs =~= ws);
    }
}

/// Popping a handle that `push(v)` made onto a handle with values `base`
/// gives back `v`, and the values below it are those of `base`.
pub proof fn lemma_push_then_pop<T>(base: Seq<T>, v: T)
    ensures
        top_of(seq![v] + base) == Some(v),
        (seq![v] + base).drop_first() == base,
{
    assert((seq![v] + base).drop_first() =~= base);
}

/// Where `T`'s clone copies, a clone of a handle has the values of the
/// original.
pub proof fn lemma_clone_same_values<T: Clone>(orig: Seq<T>, copy: Seq<T>)
    requires
        clone_of(orig, copy),
        forall|x: T, y: T| #[trigger] cloned::<T>(x, y) ==> x == y,
    ensures
        copy == orig,
{
    if orig.len() > 0 {
        assert(copy =~= seq![copy[0]] + copy.drop_first());
        assert(orig =~= seq![orig[0]] + orig.drop_first());
    } else {
        assert(copy =~= orig);
    }
}

/// Where `T`'s equality is `==` on values, two handles compare equal exactly
/// when they hold the same values, top to bottom.
pub proof fn lemma_eq_same_values<T: PartialEq>(a: Seq<T>, b: Seq<T>)
    requires
        vstd::laws_eq::obeys_concrete_eq::<T>(),
    ensures
        values_eq(a, b) <==> a == b,
{
    reveal(vstd::laws_eq::obeys_concrete_eq);
    if values_eq(a, b) {
        assert forall|i: int| 0 <= i < a.len() implies a[i] == b[i] by {
            assert(a[i].eq_spec(&b[i]));
        }
        assert(a =~= b);
    }
    if a == b {
        assert forall|i: int| 0 <= i < a.len() implies (#[trigger] a[i]).eq_spec(&b[i]) by {
            assert(a[i] == b[i]);
        }
    }
}

impl<'a, T> Stack<'a, T> {
    /// A new handle with `value` on top of this one; this handle is unchanged.
    #[must_use]
    pub fn push<'b>(&'b self, value: T) -> (r: Stack<'b, T>)
        ensures
            r@ == seq![value] + self@,
    {
        Stack { frame: Some(StackFrame { parent: self, value }) }
    }

    /// An empty handle, the root of a new stack.
    #[must_use]
    pub fn new() -> (r: Stack<'a, T>)
        ensures
            r@ == Seq::<T>::empty(),
    {
        Stack { frame: None }
    }

    /// Takes the top value; the handle below is not touched.
    #[must_use]
    pub fn pop(self) -> (r: Option<T>)
        ensures
            r == top_of(self@),
    {
        match self.frame {
            None => None,
            Some(frame) => Some(frame.value),
        }
    }

    /// The top value, if any, left in place.
    pub fn peek(&self) -> (r: Option<&T>)
        ensures
            r == (if self@.len() == 0 { None } else { Some(&self@[0]) }),
    {
        match &self.frame {
            None => None,
            Some(frame) => Some(&frame.value),
        }
    }

    /// An iterator over the values of this handle, top first.
    pub fn iter<'s>(&'s self) -> (r: StackIter<'s, T>)
        ensures
            r@ == self@,
    {
        StackIter { current: self }
    }

    /// An iterator over this handle and the non-empty handles below it.
    pub fn iter_frames<'s>(&'s self) -> (r: StackFrameIter<'s, T>)
        ensures
            r@ == self@,
            r.position() == *self,
    {
        StackFrameIter { current: self }
    }
}

/// Two value sequences that agree position by position under `T`'s equality.
pub open spec fn values_eq<T: PartialEq>(a: Seq<T>, b: Seq<T>) -> bool {
    &&& a.len() == b.len()
    &&& forall|i: int| 0 <= i < a.len() ==> (#[trigger] a[i]).eq_spec(&b[i])
}

impl<'a, T: PartialEq> PartialEq for Stack<'a, T> {
    /// Compares the handles top to bottom, one frame at a time.
    fn eq(&self, other: &Self) -> (r: bool) {
        let mut a: &Stack<'a, T> = self;
        let mut b: &Stack<'a, T> = other;
        loop
            invariant
                a@.len() <= self@.len(),
                self@.len() - a@.len() <= other@.len(),
                a@ == self@.skip(self@.len() - a@.len()),
                b@ == other@.skip(self@.len() - a@.len()),
                <T as PartialEqSpec>::obeys_eq_spec() ==> forall|i: int|
                    0 <= i < self@.len() - a@.len() ==> (#[trigger] self@[i]).eq_spec(&other@[i]),
            decreases a@.len(),
        {
            match (&a.frame, &b.frame) {
                (None, None) => {
                    return true;
                },
                (Some(fa), Some(fb)) => {
                    let ghost k = self@.len() - a@.len();
                    proof {
                        assert(a@ == seq![fa.value] + fa.parent@);
                        assert(b@ == seq![fb.value] + fb.parent@);
                        assert(fa.parent@ =~= a@.drop_first());
                        assert(fb.parent@ =~= b@.drop_first());
                        assert(self@.skip(k).drop_first() =~= self@.skip(k + 1));
                        assert(other@.skip(k).drop_first() =~= other@.skip(k + 1));
                        assert(a@[0] == fa.value && self@.skip(k)[0] == self@[k]);
                        assert(b@[0] == fb.value && other@.skip(k)[0] == other@[k]);
                    }
                    if !(fa.value == fb.value) {
                        proof {
                            assert(<T as PartialEqSpec>::obeys_eq_spec() ==> !self@[k].eq_spec(
                                &other@[k],
                            ));
                        }
                        return false;
                    }
                    a = fa.parent;
                    b = fb.parent;
                },
                _ => {
                    proof {
                        assert(a@.len() == 0 <==> a.frame is None);
                        assert(b@.len() == 0 <==> b.frame is None);
                        assert(self@.len() != other@.len());
                    }
                    return false;
                },
            }
        }
    }
}

impl<'a, T: PartialEq> vstd::std_specs::cmp::PartialEqSpecImpl for Stack<'a, T> {
    open spec fn obeys_eq_spec() -> bool {
        <T as PartialEqSpec>::obeys_eq_spec()
    }

    open spec fn eq_spec(&self, other: &Self) -> bool {
        values_eq(self@, other@)
    }
}

impl<'a, T: Eq> Eq for Stack<'a, T> {}

impl<'a, T: Clone> Clone for Stack<'a, T> {
    /// Clones the top value and shares the handle below it.
    fn clone(&self) -> (r: Self)
        ensures
            clone_of(self@, r@),
    {
        match &self.frame {
            None => Stack { frame: None },
            Some(frame) => {
                let r = Stack {
                    frame: Some(StackFrame { parent: frame.parent, value: frame.value.clone() }),
                };
                proof {
                    assert(r@.drop_first() =~= self@.drop_first());
                }
                r
            },
        }
    }
}

/// Each text followed by `, `, in order.
pub open spec fn listed(items: Seq<Seq<char>>) -> Seq<char>
    decreases items.len(),
{
    if items.len() == 0 {
        Seq::empty()
    } else {
        listed(items.drop_last()) + items.last() + ", "@
    }
}

/// The text of a handle whose values read `items`, top first.
pub open spec fn rendering(items: Seq<Seq<char>>) -> Seq<char> {
    "[<top>, "@ + listed(items) + "<base>]"@
}

/// The texts of a handle's values, top first.
pub open spec fn texts<'b>(values: Seq<&'b str>) -> Seq<Seq<char>> {
    values.map_values(|v: &'b str| v@)
}

impl<'a, 'b> Stack<'a, &'b str> {
    /// Writes the handle as `[<top>, v1, ..., vn, <base>]`, top value first.
    pub fn render(&self) -> (r: String)
        ensures
            r@ == rendering(texts(self@)),
    {
        let mut out = String::from_str("[<top>, ");
        let mut it = self.iter();
        let ghost n = self@.len();
        loop
            invariant
                it@.len() <= n,
                n == self@.len(),
                it@ == self@.skip(n - it@.len()),
                out@ == "[<top>, "@ + listed(texts(self@.take(n - it@.len()))),
            ensures
                out@ == "[<top>, "@ + listed(texts(self@)),
            decreases it@.len(),
        {
            let ghost k = n - it@.len();
            match it.next() {
                None => {
                    proof {
                        assert(self@.take(k) =~= self@);
                    }
                    break;
                },
                Some(v) => {
                    proof {
                        assert(self@.skip(k)[0] == self@[k]);
                        assert(texts(self@.take(k + 1)).drop_last() =~= texts(self@.take(k)));
                    }
                    out.append(v);
                    out.append(", ");
                },
            }
        }
        out.append("<base>]");
        out
    }
}

impl<'a, T> View for StackIter<'a, T> {
    /// The values still to come.
    type V = Seq<T>;

    closed spec fn view(&self) -> Seq<T> {
        self.current@
    }
}

impl<'a, T> StackIter<'a, T> {
    /// The next value, or `None` once the root is reached.
    pub fn next(&mut self) -> (r: Option<&'a T>)
        ensures
            old(self)@.len() == 0 ==> r is None && final(self)@ == old(self)@,
            old(self)@.len() > 0 ==> r == Some(&old(self)@[0]) && final(self)@
                == old(self)@.drop_first(),
    {
        match &self.current.frame {
            None => None,
            Some(frame) => {
                self.current = frame.parent;
                Some(&frame.value)
            },
        }
    }
}

impl<'a, T> View for StackFrameIter<'a, T> {
    /// The values of the handle still to come.
    type V = Seq<T>;

    closed spec fn view(&self) -> Seq<T> {
        self.current@
    }
}

impl<'a, T> StackFrameIter<'a, T> {
    /// The handle that the next call yields, if it is not empty.
    pub closed spec fn position(self) -> Stack<'a, T> {
        *self.current
    }

    /// The next non-empty handle, or `None` once the root is reached.
    pub fn next(&mut self) -> (r: Option<&'a Stack<'a, T>>)
        ensures
            old(self)@.len() == 0 ==> r is None && final(self)@ == old(self)@,
            old(self)@.len() > 0 ==> r == Some(&old(self).position()) && r.unwrap()@ == old(
                self,
            )@ && final(self)@ == old(self)@.drop_first(),
    {
        match &self.current.frame {
            None => None,
            Some(frame) => {
                let item = self.current;
                self.current = frame.parent;
                Some(item)
            },
        }
    }
}

impl<'a, T> Clone for StackIter<'a, T> {
    /// A second iterator at the same position.
    fn clone(&self) -> (r: Self)
        ensures
            r@ == self@,
    {
        StackIter { current: self.current }
    }
}

impl<'a, T: PartialEq> PartialEq for StackIter<'a, T> {
    /// Compares the handles that the two iterators stand at.
    fn eq(&self, other: &Self) -> (r: bool) {
        *self.current == *other.current
    }
}

impl<'a, T: PartialEq> vstd::std_specs::cmp::PartialEqSpecImpl for StackIter<'a, T> {
    open spec fn obeys_eq_spec() -> bool {
        <T as PartialEqSpec>::obeys_eq_spec()
    }

    open spec fn eq_spec(&self, other: &Self) -> bool {
        values_eq(self@, other@)
    }
}

impl<'a, T: Eq> Eq for StackIter<'a, T> {}

impl<'a, T> Clone for StackFrameIter<'a, T> {
    /// A second iterator at the same position.
    fn clone(&self) -> (r: Self)
        ensures
            r@ == self@,
    {
        StackFrameIter { current: self.current }
    }
}

impl<'a, T: PartialEq> PartialEq for StackFrameIter<'a, T> {
    /// Compares the handles that the two iterators stand at.
    fn eq(&self, other: &Self) -> (r: bool) {
        *self.current == *other.current
    }
}

impl<'a, T: PartialEq> vstd::std_specs::cmp::PartialEqSpecImpl for StackFrameIter<'a, T> {
    open spec fn obeys_eq_spec() -> bool {
        <T as PartialEqSpec>::obeys_eq_spec()
    }

    open spec fn eq_spec(&self, other: &Self) -> bool {
        values_eq(self@, other@)
    }
}

impl<'a, T: Eq> Eq for StackFrameIter<'a, T> {}

} // verus!
