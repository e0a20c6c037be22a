//! State that the graphical front end keeps besides the emulator: recently opened
//! ROMs and what the debug windows show.
use vstd::prelude::*;
use std::collections::VecDeque;
use vstd::std_specs::cmp::PartialEqSpec;
use crate::cpu::disassembler::DisassembledInstruction;

verus! {

/// A queue holding at most `L` elements, newest first; pushing past the limit
/// drops the oldest.
pub struct FixedSizeQueue<T, const L: usize>(pub VecDeque<T>);

impl<T, const L: usize> Default for FixedSizeQueue<T, L> {
    fn default() -> (r: Self)
        ensures
            r.0@ == Seq::<T>::empty(),
    {
        FixedSizeQueue(VecDeque::new())
    }
}

/// The queue after pushing `element` at the front, and the element dropped from the
/// back when the queue grew past `limit`.
pub open spec fn pushed<T>(queue: Seq<T>, element: T, limit: nat) -> (Seq<T>, Option<T>) {
    let grown = seq![element] + queue;
    if grown.len() > limit {
        (grown.drop_last(), Some(grown.last()))
    } else {
        (grown, None)
    }
}

/// The elements of `s` that are not equal to `e`, in order.
pub open spec fn without<T: PartialEq>(s: Seq<T>, e: T) -> Seq<T>
    decreases s.len(),
{
    if s.len() == 0 {
        s
    } else if s.last().eq_spec(&e) {
        without(s.drop_last(), e)
    } else {
        without(s.drop_last(), e).push(s.last())
    }
}

impl<T, const L: usize> FixedSizeQueue<T, L> {
    /// Pushes `element` at the front; returns the element dropped from the back, if
    /// the queue now holds more than `L` elements.
    pub fn push(&mut self, element: T) -> (r: Option<T>)
        ensures
            (final(self).0@, r) == pushed(old(self).0@, element, L as nat),
    {
        self.0.push_front(element);
        if self.0.len() > L {
            let r = self.0.pop_back();
            assert(self.0@ =~= (seq![element] + old(self).0@).drop_last());
            r
        } else {
            None
        }
    }
}

impl<T: PartialEq, const L: usize> FixedSizeQueue<T, L> {
    /// Removes every element equal to `element`, then pushes it at the front.
    pub fn push_without_duplicates(&mut self, element: T) -> (r: Option<T>)
        requires
            T::obeys_eq_spec(),
        ensures
            (final(self).0@, r) == pushed(without(old(self).0@, element), element, L as nat),
    {
        let ghost initial = self.0@;
        let mut kept: VecDeque<T> = VecDeque::new();
        let ghost mut taken: int = 0;
        loop
            invariant
                T::obeys_eq_spec(),
                0 <= taken <= initial.len(),
                self.0@ == initial.subrange(taken, initial.len() as int),
                kept@ == without(initial.take(taken), element),
            ensures
                taken == initial.len(),
                kept@ == without(initial.take(taken), element),
            decreases self.0@.len(),
        {
            match self.0.pop_front() {
                Some(x) => {
                    assert(initial.take(taken + 1).drop_last() =~= initial.take(taken));
                    assert(initial.take(taken + 1).last() == x);
                    if x != element {
                        kept.push_back(x);
                    }
                    proof {
                        taken = taken + 1;
                    }
                },
                None => {
                    break ;
                },
            }
        }
        assert(initial.take(taken) =~= initial);
        self.0 = kept;
        self.push(element)
    }
}

/// A queue that holds at most `L` elements still does after a push.
pub proof fn lemma_push_keeps_limit<T>(queue: Seq<T>, element: T, limit: nat)
    requires
        queue.len() <= limit,
    ensures
        pushed(queue, element, limit).0.len() <= limit,
        limit > 0 ==> pushed(queue, element, limit).0[0] == element,
{
}

/// Removing duplicates leaves no element equal to the one removed.
pub proof fn lemma_without_removes<T: PartialEq>(s: Seq<T>, e: T, i: int)
    requires
        0 <= i < without(s, e).len(),
    ensures
        !without(s, e)[i].eq_spec(&e),
    decreases s.len(),
{
    if s.len() > 0 {
        let rest = without(s.drop_last(), e);
        if i < rest.len() {
            lemma_without_removes(s.drop_last(), e, i);
        }
    }
}

/// A sequence with no element equal to `e` keeps all of them when `e` is removed.
proof fn lemma_without_absent<T: PartialEq>(s: Seq<T>, e: T)
    requires
        forall|i: int| 0 <= i < s.len() ==> !(#[trigger] s[i]).eq_spec(&e),
    ensures
        without(s, e) == s,
    decreases s.len(),
{
    if s.len() > 0 {
        lemma_without_absent(s.drop_last(), e);
        assert(s.drop_last().push(s.last()) =~= s);
    }
}

/// Removing `e` from a sequence that starts with `e` removes that first element too.
proof fn lemma_without_leading<T: PartialEq>(s: Seq<T>, e: T)
    requires
        e.eq_spec(&e),
    ensures
        without(seq![e] + s, e) == without(s, e),
    decreases s.len(),
{
    let t = seq![e] + s;
    if s.len() == 0 {
        assert(t.drop_last() =~= s);
        assert(t.last() == e);
        assert(without(t, e) == without(t.drop_last(), e));
    } else {
        lemma_without_leading(s.drop_last(), e);
        assert(t.drop_last() =~= seq![e] + s.drop_last());
        assert(t.last() == s.last());
    }
}

/// Pushing an element without duplicates a second time drops nothing and leaves the
/// queue as the first push left it (for elements whose `==` is equality).
pub proof fn lemma_push_without_duplicates_twice<T: PartialEq>(queue: Seq<T>, element: T, limit: nat)
    requires
        limit >= 1,
        queue.len() <= limit,
        forall|a: T, b: T| #[trigger] a.eq_spec(&b) <==> a == b,
    ensures
        ({
            let first = pushed(without(queue, element), element, limit).0;
            pushed(without(first, element), element, limit) == (first, None::<T>)
        }),
{
    let w = without(queue, element);
    let grown = seq![element] + w;
    let first = pushed(w, element, limit).0;
    assert forall|i: int| 0 <= i < w.len() implies !(#[trigger] w[i]).eq_spec(&element) by {
        lemma_without_removes(queue, element, i);
    }
    lemma_without_length(queue, element);
    let rest = if grown.len() > limit {
        w.drop_last()
    } else {
        w
    };
    assert(first =~= seq![element] + rest);
    assert forall|i: int| 0 <= i < rest.len() implies !(#[trigger] rest[i]).eq_spec(&element) by {
        assert(rest[i] == w[i]);
    }
    lemma_without_leading(rest, element);
    lemma_without_absent(rest, element);
}

/// Removing elements never lengthens a sequence.
proof fn lemma_without_length<T: PartialEq>(s: Seq<T>, e: T)
    ensures
        without(s, e).len() <= s.len(),
    decreases s.len(),
{
    if s.len() > 0 {
        lemma_without_length(s.drop_last(), e);
    }
}

/// Which debug windows are open.
pub struct ShowSettings {
    pub pattern_memory: bool,
    pub cpu_state: bool,
    pub program_counter: bool,
    pub ram: bool,
}

impl Default for ShowSettings {
    fn default() -> (r: Self)
        ensures
            r.pattern_memory && r.cpu_state && r.program_counter && r.ram,
    {
        Self { pattern_memory: true, cpu_state: true, program_counter: true, ram: true }
    }
}

pub struct AppSettings {
    pub show: ShowSettings,
}

impl Default for AppSettings {
    fn default() -> (r: Self)
        ensures
            r.show.pattern_memory && r.show.cpu_state && r.show.program_counter && r.show.ram,
    {
        AppSettings { show: ShowSettings::default() }
    }
}

/// What the debug windows are set to.
pub struct DebugState {
    pub program_state_offset: usize,
    pub ram_page_number: usize,
    pub ram_editing: bool,
    pub chosen_debug_palette: u8,
    pub run_speed: Option<i32>,
}

impl Default for DebugState {
    fn default() -> (r: Self)
        ensures
            r.program_state_offset == 5,
            r.ram_page_number == 0,
            !r.ram_editing,
            r.chosen_debug_palette == 0,
            r.run_speed is None,
    {
        Self {
            program_state_offset: 5,
            ram_page_number: 0,
            ram_editing: false,
            chosen_debug_palette: 0,
            run_speed: None,
        }
    }
}

/// The number of RAM pages of 256 bytes that the RAM view pages through.
pub const NUMBER_OF_RAM_PAGES: usize = 8;

impl DebugState {
    /// Turns the RAM view one page back, staying at the first page.
    pub fn previous_ram_page(&mut self)
        ensures
            final(self).ram_page_number == (if old(self).ram_page_number == 0 {
                0
            } else {
                old(self).ram_page_number - 1
            }),
            final(self).program_state_offset == old(self).program_state_offset,
            final(self).ram_editing == old(self).ram_editing,
            final(self).chosen_debug_palette == old(self).chosen_debug_palette,
            final(self).run_speed == old(self).run_speed,
    {
        self.ram_page_number = self.ram_page_number.saturating_sub(1);
    }

    /// Turns the RAM view one page on, staying at the last page.
    pub fn next_ram_page(&mut self)
        requires
            old(self).ram_page_number < usize::MAX,
        ensures
            final(self).ram_page_number == (if old(self).ram_page_number + 1 < NUMBER_OF_RAM_PAGES - 1 {
                old(self).ram_page_number + 1
            } else {
                NUMBER_OF_RAM_PAGES - 1
            }),
            final(self).program_state_offset == old(self).program_state_offset,
            final(self).ram_editing == old(self).ram_editing,
            final(self).chosen_debug_palette == old(self).chosen_debug_palette,
            final(self).run_speed == old(self).run_speed,
    {
        let next = self.ram_page_number + 1;
        self.ram_page_number = if NUMBER_OF_RAM_PAGES - 1 < next {
            NUMBER_OF_RAM_PAGES - 1
        } else {
            next
        };
    }
}

/// Where the program view stands: the index of the first instruction that starts at
/// `mapped_pc`, with the first and last index of the `offset` instructions around it on
/// each side (counted without going below zero or past `usize::MAX`); `None` where no
/// instruction starts at `mapped_pc`.
pub fn program_window(
    instructions: &Vec<DisassembledInstruction>,
    mapped_pc: usize,
    offset: usize,
) -> (r: Option<(usize, usize, usize)>)
    ensures
        match r {
            None => forall|k: int|
                0 <= k < instructions@.len() ==> #[trigger] instructions@[k].address != mapped_pc,
            Some((index, first, last)) => {
                &&& index < instructions@.len()
                &&& instructions@[index as int].address == mapped_pc
                &&& forall|k: int| 0 <= k < index ==> #[trigger] instructions@[k].address != mapped_pc
                &&& first == (if index < offset { 0 } else { index - offset })
                &&& last == (if index + offset > usize::MAX { usize::MAX as int } else { index + offset })
            },
        },
{
    let mut index: usize = 0;
    while index < instructions.len()
        invariant
            index <= instructions@.len(),
            forall|k: int| 0 <= k < index ==> #[trigger] instructions@[k].address != mapped_pc,
        decreases instructions@.len() - index,
    {
        if instructions[index].address == mapped_pc {
            return Some((index, index.saturating_sub(offset), index.saturating_add(offset)));
        }
        index = index + 1;
    }
    None
}

/// A canvas that draws nothing.
pub struct DummyCanvas;

impl Default for DummyCanvas {
    fn default() -> (r: Self) {
        Self {  }
    }
}

} // verus!
