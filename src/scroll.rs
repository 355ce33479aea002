use vstd::prelude::*;

verus! {

/// Position of a scrollbar's thumb within content of a given length.
#[derive(Debug, Clone, Copy, PartialEq, Eq, Structural)]
pub struct ScrollbarState {
    pub content_length: usize,
    pub position: usize,
}

impl ScrollbarState {
    /// A scrollbar over `content_length` lines, at the top.
    pub fn new(content_length: usize) -> (r: Self)
        ensures
            r == (ScrollbarState { content_length, position: 0 }),
    {
        ScrollbarState { content_length, position: 0 }
    }

    /// The same scrollbar with its thumb at `position`.
    pub fn position(self, position: usize) -> (r: Self)
        ensures
            r == (ScrollbarState { position, ..self }),
    {
        ScrollbarState { position, ..self }
    }

    /// The same scrollbar over content of another length.
    pub fn content_length(self, content_length: usize) -> (r: Self)
        ensures
            r == (ScrollbarState { content_length, ..self }),
    {
        ScrollbarState { content_length, ..self }
    }
}

impl Default for ScrollbarState {
    fn default() -> (r: Self)
        ensures
            r == (ScrollbarState { content_length: 0, position: 0 }),
    {
        ScrollbarState { content_length: 0, position: 0 }
    }
}

/// Which row of a list is selected, if any.
#[derive(Debug, Clone, Copy, PartialEq, Eq, Structural)]
pub struct ListState {
    pub selected: Option<usize>,
}

impl ListState {
    pub fn selected(&self) -> (r: Option<usize>)
        ensures
            r == self.selected,
    {
        self.selected
    }

    pub fn select(&mut self, index: Option<usize>)
        ensures
            final(self).selected == index,
    {
        self.selected = index;
    }
}

/// Which row of a table is selected, if any.
#[derive(Debug, Clone, Copy, PartialEq, Eq, Structural)]
pub struct TableState {
    pub selected: Option<usize>,
}

impl TableState {
    pub fn selected(&self) -> (r: Option<usize>)
        ensures
            r == self.selected,
    {
        self.selected
    }

    pub fn select(&mut self, index: Option<usize>)
        ensures
            final(self).selected == index,
    {
        self.selected = index;
    }
}

/// The row selected after moving `n` rows down from `sel` in a list of
/// `len` rows: the last row at most, nothing in an empty list.
pub open spec fn row_below(sel: Option<usize>, n: usize, len: usize) -> Option<usize> {
    if len == 0 {
        None
    } else {
        let from: int = match sel {
            Some(i) => i as int,
            None => 0,
        };
        if from + n >= len {
            Some((len - 1) as usize)
        } else {
            Some((from + n) as usize)
        }
    }
}

/// The row selected after moving `n` rows up from `sel` in a list of `len`
/// rows: the first row at least, nothing in an empty list.
pub open spec fn row_above(sel: Option<usize>, n: usize, len: usize) -> Option<usize> {
    if len == 0 {
        None
    } else {
        let from: int = match sel {
            Some(i) => if i >= len { len - 1 } else { i as int },
            None => 0,
        };
        if from <= n {
            Some(0usize)
        } else {
            Some((from - n) as usize)
        }
    }
}

/// The first row, or nothing in an empty list.
pub open spec fn first_row(len: usize) -> Option<usize> {
    if len == 0 {
        None
    } else {
        Some(0usize)
    }
}

/// The last row, or nothing in an empty list.
pub open spec fn last_row(len: usize) -> Option<usize> {
    if len == 0 {
        None
    } else {
        Some((len - 1) as usize)
    }
}

/// A selection that names a row of a list of `len` rows, or none.
pub open spec fn selection_fits(sel: Option<usize>, len: nat) -> bool {
    match sel {
        Some(i) => i < len,
        None => true,
    }
}

/// The thumb position that goes with a selection.
pub open spec fn thumb_of(sel: Option<usize>) -> usize {
    match sel {
        Some(i) => i,
        None => 0,
    }
}

pub fn row_below_exec(sel: Option<usize>, n: usize, len: usize) -> (r: Option<usize>)
    ensures
        r == row_below(sel, n, len),
        selection_fits(r, len as nat),
{
    if len == 0 {
        return None;
    }
    let from: usize = match sel {
        Some(i) => i,
        None => 0,
    };
    if from >= len || n >= len - from {
        Some(len - 1)
    } else {
        Some(from + n)
    }
}

pub fn row_above_exec(sel: Option<usize>, n: usize, len: usize) -> (r: Option<usize>)
    ensures
        r == row_above(sel, n, len),
        selection_fits(r, len as nat),
{
    if len == 0 {
        return None;
    }
    let from: usize = match sel {
        Some(i) => if i >= len { len - 1 } else { i },
        None => 0,
    };
    if from <= n {
        Some(0)
    } else {
        Some(from - n)
    }
}

pub fn first_row_exec(len: usize) -> (r: Option<usize>)
    ensures
        r == first_row(len),
        selection_fits(r, len as nat),
{
    if len == 0 {
        None
    } else {
        Some(0)
    }
}

pub fn last_row_exec(len: usize) -> (r: Option<usize>)
    ensures
        r == last_row(len),
        selection_fits(r, len as nat),
{
    if len == 0 {
        None
    } else {
        Some(len - 1)
    }
}

pub fn thumb_of_exec(sel: Option<usize>) -> (r: usize)
    ensures
        r == thumb_of(sel),
{
    match sel {
        Some(i) => i,
        None => 0,
    }
}

} // verus!
