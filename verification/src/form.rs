//! A custom paper form: its layout, the device mode fields that select it,
//! and the task memory that the device mode and the printer's settings take.

use vstd::prelude::*;

use crate::text::{str_to_utf16, utf16_encode};

verus! {

/// The device mode field flag that says the form name is set (`DM_FORMNAME`).
pub const DM_FORMNAME: u32 = 0x10000;

/// The most task memory allocated at once: 100 MiB.
pub const COTASK_ALLOCATION_LIMIT: u64 = 104857600;

/// A size in thousandths of a millimetre.
#[derive(Clone, Copy, Debug, PartialEq, Eq, Structural)]
pub struct SIZEW {
    pub cx: i32,
    pub cy: i32,
}

/// A rectangle in thousandths of a millimetre.
#[derive(Clone, Copy, Debug, PartialEq, Eq, Structural)]
pub struct RECTW {
    pub left: i32,
    pub top: i32,
    pub right: i32,
    pub bottom: i32,
}

/// The numeric part of a `FORM_INFO_1W`.
#[derive(Clone, Copy, Debug, PartialEq, Eq, Structural)]
pub struct FormLayout {
    pub flags: u32,
    pub size: SIZEW,
    pub imageable_area: RECTW,
}

/// The form of a paper `width` by `height` thousandths of a millimetre: a
/// form with no flags, printable over the whole sheet.
pub fn paper_form(width: i32, height: i32) -> (res: FormLayout)
    ensures
        res.flags == 0,
        res.size == (SIZEW { cx: width, cy: height }),
        res.imageable_area == (RECTW { left: 0, top: 0, right: width, bottom: height }),
{
    FormLayout {
        flags: 0,
        size: SIZEW { cx: width, cy: height },
        imageable_area: RECTW { left: 0, top: 0, right: width, bottom: height },
    }
}

/// The form name field after selecting paper `name` in a field that held `old`:
/// the name's UTF-16 units with their NUL, as far as they fit before the last
/// slot, the rest of the old field, and a NUL in the last slot.
pub open spec fn form_name_field(old: Seq<u16>, name: Seq<char>) -> Seq<u16> {
    let units = utf16_encode(name).push(0);
    Seq::new(
        32,
        |i: int|
            if i == 31 {
                0u16
            } else if i < units.len() {
                units[i]
            } else {
                old[i]
            },
    )
}

/// Selects the paper `name` in a device mode: only the form name field is
/// marked as set, and the form name holds the paper's name.
pub fn select_form(dm_fields: &mut u32, dm_form_name: &mut [u16; 32], name: &str)
    ensures
        *final(dm_fields) == DM_FORMNAME,
        final(dm_form_name)@ == form_name_field(old(dm_form_name)@, name@),
{
    let units = str_to_utf16(name);
    let n = if units.len() < 31 {
        units.len()
    } else {
        31
    };
    let mut i: usize = 0;
    while i < n
        invariant
            n <= 31,
            n <= units@.len(),
            units@ == utf16_encode(name@).push(0),
            i <= n,
            dm_form_name@.len() == 32,
            forall|j: int| 0 <= j < i ==> dm_form_name@[j] == units@[j],
            forall|j: int| i <= j < 32 ==> dm_form_name@[j] == old(dm_form_name)@[j],
        decreases n - i,
    {
        dm_form_name[i] = units[i];
        i = i + 1;
    }
    dm_form_name[31] = 0;
    *dm_fields = DM_FORMNAME;
    assert(dm_form_name@ =~= form_name_field(old(dm_form_name)@, name@));
}

/// The task memory to allocate for a device mode of the size that
/// `DocumentPropertiesW` reported: 100 bytes more, or `None` where that is
/// beyond what is allocated at once (or where no size was reported).
pub fn devmode_allocation(reported: i32) -> (res: Option<usize>)
    ensures
        0 <= reported && reported + 100 <= COTASK_ALLOCATION_LIMIT ==> res == Some(
            (reported + 100) as usize,
        ),
        reported < 0 || reported + 100 > COTASK_ALLOCATION_LIMIT ==> res is None,
{
    if reported < 0 {
        return None;
    }
    let size = reported as u64 + 100;
    if size <= COTASK_ALLOCATION_LIMIT {
        Some(size as usize)
    } else {
        None
    }
}

/// The task memory to allocate for `needed` bytes, or `None` where that is
/// beyond what is allocated at once.
pub fn cotask_allocation(needed: u32) -> (res: Option<usize>)
    ensures
        needed <= COTASK_ALLOCATION_LIMIT ==> res == Some(needed as usize),
        needed > COTASK_ALLOCATION_LIMIT ==> res is None,
{
    if needed as u64 <= COTASK_ALLOCATION_LIMIT {
        Some(needed as usize)
    } else {
        None
    }
}

} // verus!
