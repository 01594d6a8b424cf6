//! A generic singly linked list with O(1) insertion and removal at the head,
//! positional access to the first and last elements, and traversal by value,
//! by shared reference, and by exclusive reference.
//!
//! The most recently pushed element is always at the head, so every traversal
//! yields elements in reverse insertion order. The abstract model of a list is
//! the sequence of its elements in head-to-tail order.

use vstd::prelude::*;

verus! {

/// A link is an optional, exclusively owned pointer to the next node.
type Link<T> = Option<Box<Node<T>>>;

/// One storage cell of the chain: an element and the rest of the chain.
/// It is public only so that contracts can speak of the chain a mutable
/// traversal holds on to; its fields stay private.
pub struct Node<T> {
    data: T,
    next: Link<T>,
}

/// A singly linked list, owning an optional chain of nodes.
pub struct SinglyLinkedList<T> {
    head: Link<T>,
}

/// The sequence of elements stored in a chain, head first.
spec fn link_view<T>(link: Link<T>) -> Seq<T>
    decreases link,
{
    match link {
        None => Seq::empty(),
        Some(node) => seq![node.data] + link_view(node.next),
    }
}

/// The sequence of elements stored in the chain that starts at `node`.
pub closed spec fn node_view<T>(node: Node<T>) -> Seq<T> {
    seq![node.data] + link_view(node.next)
}

impl<T> SinglyLinkedList<T> {
    /// The abstract model of the list: its elements in head-to-tail order,
    /// i.e. in reverse insertion order.
    pub closed spec fn view(&self) -> Seq<T> {
        link_view(self.head)
    }
}

/// Walks to the end of the chain that starts at `node` and returns an
/// exclusive reference to the last element.
fn last_elem_mut<T>(node: &mut Node<T>) -> (elem: &mut T)
    ensures
        *elem == node_view(*old(node)).last(),
        node_view(*final(node)) =~= node_view(*old(node)).update(
            node_view(*old(node)).len() - 1,
            *final(elem),
        ),
    decreases *old(node),
{
    match &mut node.next {
        None => &mut node.data,
        Some(next) => last_elem_mut(&mut **next),
    }
}

impl<T> Default for SinglyLinkedList<T> {
    /// Creates a new, empty list.
    fn default() -> (list: Self)
        ensures
            list@ == Seq::<T>::empty(),
    {
        SinglyLinkedList { head: None }
    }
}

impl<T: Copy + Clone> SinglyLinkedList<T> {
    /// Creates a new, empty list.
    pub fn new() -> (list: Self)
        ensures
            list@ == Seq::<T>::empty(),
    {
        SinglyLinkedList { head: None }
    }

    /// Inserts `data` at the head of the list.
    pub fn push(&mut self, data: T)
        ensures
            final(self)@ == seq![data] + old(self)@,
    {
        let new_node = Box::new(Node { data, next: self.head.take() });
        self.head = Some(new_node);
    }

    /// Builds a list by pushing every element of `elements` in order, so the
    /// resulting list holds the elements in reverse production order.
    pub fn from_vec(elements: Vec<T>) -> (list: Self)
        ensures
            list@ == elements@.reverse(),
            list@ == push_all(Seq::empty(), elements@),
    {
        proof {
            lemma_lifo_order(elements@);
        }
        let mut list = Self::new();
        let mut i: usize = 0;
        while i < elements.len()
            invariant
                i <= elements@.len(),
                list@ == elements@.take(i as int).reverse(),
            decreases elements@.len() - i,
        {
            list.push(elements[i]);
            i += 1;
        }
        list
    }

    /// Read-only view of the head element, or `None` on an empty list.
    pub fn front(&self) -> (elem: Option<&T>)
        ensures
            self@.len() == 0 ==> elem is None,
            self@.len() > 0 ==> (elem matches Some(e) && *e == self@[0]),
    {
        match &self.head {
            None => None,
            Some(node) => Some(&node.data),
        }
    }

    /// Exclusive view of the head element, or `None` on an empty list.
    /// Writing through the returned reference replaces the head element.
    pub fn front_mut(&mut self) -> (elem: Option<&mut T>)
        ensures
            old(self)@.len() == 0 ==> elem is None && final(self)@ == old(self)@,
            old(self)@.len() > 0 ==> (elem matches Some(e) && *e == old(self)@[0]
                && final(self)@ == old(self)@.update(0, *final(e))),
    {
        match &mut self.head {
            None => None,
            Some(node) => Some(&mut node.data),
        }
    }

    /// Read-only view of the last element, reached by walking the full
    /// chain, or `None` on an empty list.
    pub fn back(&self) -> (elem: Option<&T>)
        ensures
            self@.len() == 0 ==> elem is None,
            self@.len() > 0 ==> (elem matches Some(e) && *e == self@.last()),
    {
        match &self.head {
            None => None,
            Some(first) => {
                let mut node: &Node<T> = first;
                loop
                    invariant
                        node_view(*node).len() > 0,
                        node_view(*node).last() == self@.last(),
                        self@.len() > 0,
                    decreases node_view(*node).len(),
                {
                    match &node.next {
                        None => {
                            return Some(&node.data);
                        }
                        Some(next) => {
                            node = next;
                        }
                    }
                }
            }
        }
    }

    /// Exclusive view of the last element, reached by walking the full
    /// chain, or `None` on an empty list. Writing through the returned
    /// reference replaces the last element.
    pub fn back_mut(&mut self) -> (elem: Option<&mut T>)
        ensures
            old(self)@.len() == 0 ==> elem is None && final(self)@ == old(self)@,
            old(self)@.len() > 0 ==> (elem matches Some(e) && *e == old(self)@.last()
                && final(self)@ == old(self)@.update(old(self)@.len() - 1, *final(e))),
    {
        match &mut self.head {
            None => None,
            Some(first) => Some(last_elem_mut(&mut **first)),
        }
    }

    /// The number of elements, counted by draining the list.
    pub fn length(self) -> (count: usize)
        requires
            self@.len() <= usize::MAX,
        ensures
            count == self@.len(),
    {
        let ghost total: nat = self@.len();
        let mut rest = self;
        let mut count: usize = 0;
        loop
            invariant
                count + rest@.len() == total,
                total == self@.len(),
                total <= usize::MAX,
            decreases rest@.len(),
        {
            match rest.pop() {
                Some(_) => {
                    count = count + 1;
                }
                None => {
                    return count;
                }
            }
        }
    }

    /// Removes the head element and returns it, or returns `None` on an
    /// empty list.
    pub fn pop(&mut self) -> (popped: Option<T>)
        ensures
            old(self)@.len() == 0 ==> popped is None && final(self)@ == old(self)@,
            old(self)@.len() > 0 ==> popped == Some(old(self)@[0])
                && final(self)@ == old(self)@.drop_first(),
    {
        match self.head.take() {
            None => None,
            Some(node) => {
                let node = *node;
                self.head = node.next;
                Some(node.data)
            }
        }
    }
}

/// An owning iterator: wraps the list by value and drains it by repeated
/// head removal, yielding elements in head-to-tail order.
pub struct IntoIter<T>(SinglyLinkedList<T>);

impl<T> IntoIter<T> {
    /// The elements that the iterator has yet to yield, in yield order.
    pub closed spec fn remaining(&self) -> Seq<T> {
        self.0@
    }
}

impl<T> SinglyLinkedList<T> {
    /// Consumes the list into an iterator that yields the elements by value.
    pub fn into_iter(self) -> (it: IntoIter<T>)
        ensures
            it.remaining() == self@,
    {
        IntoIter(self)
    }
}

impl<T: Copy + Clone> IntoIter<T> {
    /// Yields the next element by value, or `None` once the wrapped list is
    /// drained.
    pub fn next(&mut self) -> (item: Option<T>)
        ensures
            old(self).remaining().len() == 0 ==> item is None
                && final(self).remaining() == old(self).remaining(),
            old(self).remaining().len() > 0 ==> item == Some(old(self).remaining()[0])
                && final(self).remaining() == old(self).remaining().drop_first(),
    {
        self.0.pop()
    }
}

/// An iterator yielding read-only references to the elements, head first.
/// It walks the chain without mutating the list it was created from.
pub struct Iter<'a, T> {
    next: Option<&'a Node<T>>,
}

impl<'a, T> Iter<'a, T> {
    /// The elements that the iterator has yet to yield, in yield order.
    pub closed spec fn remaining(&self) -> Seq<T> {
        match self.next {
            None => Seq::empty(),
            Some(node) => node_view(*node),
        }
    }

    /// Yields a read-only reference to the next element, or `None` once the
    /// chain is exhausted.
    pub fn next(&mut self) -> (item: Option<&'a T>)
        ensures
            old(self).remaining().len() == 0 ==> item is None
                && final(self).remaining() == old(self).remaining(),
            old(self).remaining().len() > 0 ==> (item matches Some(e)
                && *e == old(self).remaining()[0]
                && final(self).remaining() == old(self).remaining().drop_first()),
    {
        match self.next {
            None => None,
            Some(node) => {
                self.next = match &node.next {
                    None => None,
                    Some(next) => Some(&**next),
                };
                Some(&node.data)
            }
        }
    }
}

impl<T> SinglyLinkedList<T> {
    /// Creates an iterator that yields the elements by reference.
    pub fn iter(&self) -> (it: Iter<'_, T>)
        ensures
            it.remaining() == self@,
    {
        let next = match &self.head {
            None => None,
            Some(first) => Some(&**first),
        };
        Iter { next }
    }
}

/// An iterator yielding exclusive references to the elements, head first.
/// While it is alive it has sole traversal rights over the chain; what is
/// written through the yielded references is what the list holds afterwards.
pub struct IterMut<'a, T> {
    next: Option<&'a mut Node<T>>,
}

impl<'a, T> IterMut<'a, T> {
    /// The exclusive reference to the not-yet-visited part of the chain,
    /// or `None` once the chain is exhausted.
    pub closed spec fn link(&self) -> Option<&'a mut Node<T>> {
        self.next
    }

    /// The elements that the iterator has yet to yield, in yield order,
    /// with the values they hold at present.
    pub open spec fn remaining(&self) -> Seq<T> {
        match self.link() {
            None => Seq::empty(),
            Some(node) => node_view(*node),
        }
    }

    /// Yields an exclusive reference to the next element, or `None` once the
    /// chain is exhausted. The element the reference ends up holding, cons
    /// the elements the rest of the traversal ends up holding, is what the
    /// visited part of the chain holds from now on.
    pub fn next(&mut self) -> (item: Option<&'a mut T>)
        ensures
            old(self).link() is None ==> item is None && final(self).link() is None,
            old(self).link() matches Some(node) ==> (item matches Some(e)
                && *e == node_view(*node)[0]
                && final(self).remaining() == node_view(*node).drop_first()
                && node_view(*final(node)) =~= seq![*final(e)] + (match final(self).link() {
                    None => Seq::<T>::empty(),
                    Some(rest) => node_view(*final(rest)),
                })),
    {
        match self.next.take() {
            None => None,
            Some(node) => {
                self.next = match &mut node.next {
                    None => None,
                    Some(next) => Some(&mut **next),
                };
                Some(&mut node.data)
            }
        }
    }
}

impl<T> SinglyLinkedList<T> {
    /// Creates an iterator that yields exclusive references to the elements.
    /// The list afterwards holds whatever the traversal ends up writing.
    pub fn iter_mut(&mut self) -> (it: IterMut<'_, T>)
        ensures
            it.remaining() == old(self)@,
            final(self)@ == (match it.link() {
                None => old(self)@,
                Some(node) => node_view(*final(node)),
            }),
    {
        let next = match &mut self.head {
            None => None,
            Some(first) => Some(&mut **first),
        };
        IterMut { next }
    }
}

/// Multiplies every element of `list` by `k`, through a mutable traversal.
/// A value-consuming traversal afterwards yields each original element
/// multiplied by `k`, in the same reverse-insertion order as before.
pub fn scale_all(list: &mut SinglyLinkedList<i64>, k: i64)
    requires
        forall|i: int| 0 <= i < old(list)@.len()
            ==> i64::MIN <= (#[trigger] old(list)@[i]) * k <= i64::MAX,
    ensures
        final(list)@.len() == old(list)@.len(),
        forall|i: int| 0 <= i < old(list)@.len() ==> final(list)@[i] == old(list)@[i] * k,
{
    let ghost orig = old(list)@;
    let mut it = list.iter_mut();
    let ghost it0 = it;
    let ghost mut done: Seq<i64> = Seq::empty();
    loop
        invariant
            forall|i: int| 0 <= i < orig.len()
                ==> i64::MIN <= (#[trigger] orig[i]) * k <= i64::MAX,
            done.len() <= orig.len(),
            it.remaining() =~= orig.skip(done.len() as int),
            forall|i: int| 0 <= i < done.len() ==> done[i] == orig[i] * k,
            (match it0.link() {
                None => Seq::<i64>::empty(),
                Some(node) => node_view(*final(node)),
            }) =~= done + (match it.link() {
                None => Seq::<i64>::empty(),
                Some(node) => node_view(*final(node)),
            }),
        ensures
            it.link() is None,
            done.len() == orig.len(),
            forall|i: int| 0 <= i < done.len() ==> done[i] == orig[i] * k,
            (match it0.link() {
                None => Seq::<i64>::empty(),
                Some(node) => node_view(*final(node)),
            }) =~= done,
        decreases it.remaining().len(),
    {
        match it.next() {
            None => {
                break ;
            }
            Some(elem) => {
                let scaled: i64 = *elem * k;
                *elem = scaled;
                proof {
                    done = done.push(scaled);
                }
            }
        }
    }
}

/// The view a list reaches from `start` after pushing every element of
/// `produced` in order. Each push puts its element at the head, in front of
/// everything pushed before it.
pub open spec fn push_all<T>(start: Seq<T>, produced: Seq<T>) -> Seq<T>
    decreases produced.len(),
{
    if produced.len() == 0 {
        start
    } else {
        push_all(seq![produced[0]] + start, produced.drop_first())
    }
}

/// Pushing the elements of `produced` in order onto a list whose view is
/// `start` reverses them: the last element pushed ends up at the head.
pub proof fn lemma_push_all_reverses<T>(start: Seq<T>, produced: Seq<T>)
    ensures
        push_all(start, produced) == produced.reverse() + start,
    decreases produced.len(),
{
    if produced.len() == 0 {
        assert(push_all(start, produced) =~= produced.reverse() + start);
    } else {
        lemma_push_all_reverses(seq![produced[0]] + start, produced.drop_first());
        assert(produced.drop_first().reverse() + (seq![produced[0]] + start)
            =~= produced.reverse() + start);
    }
}

/// Strict LIFO order: pushing `produced` onto an empty list leaves the view
/// `produced.reverse()`, so popping repeatedly, which returns the view's
/// elements front first, yields the pushed elements newest first.
pub proof fn lemma_lifo_order<T>(produced: Seq<T>)
    ensures
        push_all(Seq::empty(), produced) == produced.reverse(),
{
    lemma_push_all_reverses(Seq::empty(), produced);
    assert(produced.reverse() + Seq::<T>::empty() =~= produced.reverse());
}

/// After pushing at least one element onto an empty list, the head element
/// is the one pushed last and the back element is the one pushed first.
pub proof fn lemma_front_back_after_pushes<T>(produced: Seq<T>)
    requires
        produced.len() > 0,
    ensures
        push_all(Seq::empty(), produced).first() == produced.last(),
        push_all(Seq::empty(), produced).last() == produced.first(),
{
    lemma_lifo_order(produced);
}

} // verus!
