//! Moving the selection of a list view: with wrap-around in the storage
//! views, held at the ends in the process and network views.

use vstd::prelude::*;

verus! {

/// The row above `selected` in a list of `len` rows, the last row above
/// the first; an empty list keeps its selection.
pub open spec fn spec_wrap_prev(selected: usize, len: usize) -> usize {
    if len == 0 {
        selected
    } else if selected == 0 {
        (len - 1) as usize
    } else {
        (selected - 1) as usize
    }
}

/// The row below `selected` in a list of `len` rows, the first row below
/// the last; an empty list keeps its selection.
pub open spec fn spec_wrap_next(selected: usize, len: usize) -> usize {
    if len == 0 {
        selected
    } else {
        ((selected + 1) % (len as int)) as usize
    }
}

/// The row above `selected`, or `selected` itself at the top or in an
/// empty list.
pub open spec fn spec_step_prev(selected: usize, len: usize) -> usize {
    if len == 0 || selected == 0 {
        selected
    } else {
        (selected - 1) as usize
    }
}

/// The row below `selected`, but never past the last row; an empty list
/// keeps its selection.
pub open spec fn spec_step_next(selected: usize, len: usize) -> usize {
    if len == 0 {
        selected
    } else if selected + 1 <= len - 1 {
        (selected + 1) as usize
    } else {
        (len - 1) as usize
    }
}

/// Moves the selection up, from the first row around to the last.
pub fn wrap_prev(selected: usize, len: usize) -> (row: usize)
    ensures
        row == spec_wrap_prev(selected, len),
{
    if len == 0 {
        selected
    } else if selected == 0 {
        len - 1
    } else {
        selected - 1
    }
}

/// Moves the selection down, from the last row around to the first.
pub fn wrap_next(selected: usize, len: usize) -> (row: usize)
    ensures
        row == spec_wrap_next(selected, len),
        len > 0 ==> row < len,
{
    if len == 0 {
        selected
    } else if selected == usize::MAX {
        let row = ((selected % len) + 1) % len;
        assert(row == (selected + 1) % (len as int)) by (nonlinear_arith)
            requires
                len > 0,
                row == ((selected % len) + 1) % (len as int),
        ;
        row
    } else {
        (selected + 1) % len
    }
}

/// Moves the selection up, but not past the first row.
pub fn step_prev(selected: usize, len: usize) -> (row: usize)
    ensures
        row == spec_step_prev(selected, len),
{
    if len == 0 || selected == 0 {
        selected
    } else {
        selected - 1
    }
}

/// Moves the selection down, but not past the last row.
pub fn step_next(selected: usize, len: usize) -> (row: usize)
    ensures
        row == spec_step_next(selected, len),
        len > 0 ==> row < len,
{
    if len == 0 {
        selected
    } else if selected < len - 1 {
        selected + 1
    } else {
        len - 1
    }
}

/// The selection after the list was reloaded with `len` rows: a
/// selection past the end of a non-empty list goes back to the top.
pub fn selection_after_reload(selected: usize, len: usize) -> (row: usize)
    ensures
        row == if len > 0 && selected >= len {
            0
        } else {
            selected
        },
{
    if len > 0 && selected >= len {
        0
    } else {
        selected
    }
}

/// Going down and then up in a list with wrap-around comes back to the
/// row one started from, and so does going up and then down.
pub proof fn wrap_moves_undo_each_other(selected: usize, len: usize)
    requires
        selected < len,
    ensures
        spec_wrap_prev(spec_wrap_next(selected, len), len) == selected,
        spec_wrap_next(spec_wrap_prev(selected, len), len) == selected,
{
    if selected + 1 < len {
        assert((selected + 1) % (len as int) == selected + 1) by (nonlinear_arith)
            requires
                0 <= selected + 1 < len,
        ;
    } else {
        assert((selected + 1) % (len as int) == 0) by (nonlinear_arith)
            requires
                selected + 1 == len,
                len > 0,
        ;
    }
    if selected == 0 {
        assert((len - 1 + 1) % (len as int) == 0) by (nonlinear_arith)
            requires
                len > 0,
        ;
    } else {
        assert((selected - 1 + 1) % (len as int) == selected) by (nonlinear_arith)
            requires
                0 < selected < len,
        ;
    }
}

} // verus!
