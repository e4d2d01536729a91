//! The bar at the top of the screen that names the tabs.

use crate::keys::SharedKeyConfig;
use crate::strings::width::{display_width, width};
use std::path::PathBuf;
use vstd::prelude::*;

verus! {

/// The bar of tabs.
pub struct TabBar {
    cwd: PathBuf,
    selected_tab: usize,
    key_config: SharedKeyConfig,
}

/// The blank columns on both sides of a divider together.
pub const DIVIDER_PAD_SPACES: usize = 2;

/// The blank columns at both ends of the labels together.
pub const SIDE_PADS: usize = 2;

/// The columns of the margin left and right together.
pub const MARGIN_LEFT_RIGHT: usize = 2;

/// The sum of `widths`.
pub open spec fn sum_of(widths: Seq<usize>) -> int
    decreases widths.len(),
{
    if widths.len() == 0 {
        0
    } else {
        sum_of(widths.drop_last()) + widths.last()
    }
}

/// The columns of the dividers between `count` labels, each `divider`
/// columns wide and with blanks on both sides.
pub open spec fn dividers_width(count: nat, divider: usize) -> int {
    if count == 0 {
        0
    } else {
        (count - 1) * (divider + DIVIDER_PAD_SPACES)
    }
}

/// The columns that tabs ask for whose labels are `widths` columns wide:
/// labels, dividers, pads and margin.
pub open spec fn tabs_len(widths: Seq<usize>, divider: usize) -> int {
    sum_of(widths) + dividers_width(widths.len(), divider) + SIDE_PADS + MARGIN_LEFT_RIGHT
}

/// What is given to tabs that ask for `asked` columns: what they ask for,
/// or `fallback` if that is more than a 16-bit number holds.
pub open spec fn columns_given(asked: int, fallback: u16) -> int {
    if asked <= u16::MAX {
        asked
    } else {
        fallback as int
    }
}

/// The columns that each of `labels` takes.
pub open spec fn widths_of(labels: Seq<String>) -> Seq<usize> {
    labels.map_values(|label: String| display_width(label@))
}

impl TabBar {
    /// The tab that is marked as open.
    pub closed spec fn selected(&self) -> usize {
        self.selected_tab
    }

    /// The directory that the bar shows.
    pub closed spec fn directory(&self) -> PathBuf {
        self.cwd
    }

    /// The key bindings the bar was made with.
    pub closed spec fn bindings(&self) -> SharedKeyConfig {
        self.key_config
    }

    /// A bar with its first tab marked.
    pub fn new(key_config: SharedKeyConfig, cwd: PathBuf) -> (bar: Self)
        ensures
            bar.selected() == 0,
            bar.directory() == cwd,
            bar.bindings() == key_config,
    {
        TabBar { cwd, key_config, selected_tab: 0 }
    }

    /// Marks tab `tab` as open.
    pub fn set_selected_tab(&mut self, tab: usize)
        ensures
            final(self).selected() == tab,
            final(self).directory() == old(self).directory(),
            final(self).bindings() == old(self).bindings(),
    {
        self.selected_tab = tab;
    }

    /// The directory that the bar shows.
    pub fn cwd(&self) -> (cwd: &PathBuf)
        ensures
            *cwd == self.directory(),
    {
        &self.cwd
    }

    /// The tab that is marked as open.
    pub fn selected_tab(&self) -> (tab: usize)
        ensures
            tab == self.selected(),
    {
        self.selected_tab
    }
}

/// The smaller of `a + b` and `cap`.
fn capped_sum(a: u64, b: usize, cap: u64) -> (sum: u64)
    requires
        a <= cap,
        cap <= 0x1_0000_0000,
    ensures
        sum == if a + b <= cap {
            a + b
        } else {
            cap as int
        },
{
    if b as u64 > cap {
        cap
    } else if a + b as u64 > cap {
        cap
    } else {
        a + b as u64
    }
}

/// The columns to give to the tabs: what `labels` with `divider` between
/// them ask for, or `fallback` if that is more than a 16-bit number holds.
pub fn tabs_columns(labels: &Vec<String>, divider: &str, fallback: u16) -> (columns: u16)
    ensures
        columns == columns_given(
            tabs_len(widths_of(labels@), display_width(divider@)),
            fallback,
        ),
{
    let mut widths: Vec<usize> = Vec::new();
    let mut i: usize = 0;
    assert(widths_of(labels@).take(0) =~= Seq::<usize>::empty());
    while i < labels.len()
        invariant
            0 <= i <= labels.len(),
            widths@ == widths_of(labels@).take(i as int),
        decreases labels.len() - i,
    {
        widths.push(width(labels[i].as_str()));
        assert(widths@ =~= widths_of(labels@).take(i + 1));
        i = i + 1;
    }
    assert(widths_of(labels@).take(labels.len() as int) =~= widths_of(labels@));
    columns_for(&widths, width(divider), fallback)
}

/// The columns to give to tabs whose labels are `widths` columns wide, with
/// dividers of `divider` columns between them: what they ask for, or
/// `fallback` if that is more than a 16-bit number holds.
pub fn columns_for(widths: &Vec<usize>, divider: usize, fallback: u16) -> (columns: u16)
    ensures
        columns == columns_given(tabs_len(widths@, divider), fallback),
{
    let cap: u64 = 0x1_0000;
    let mut total: u64 = 0;
    let mut i: usize = 0;
    assert(widths@.take(0) =~= Seq::<usize>::empty());
    while i < widths.len()
        invariant
            0 <= i <= widths.len(),
            cap == 0x1_0000,
            total == if sum_of(widths@.take(i as int)) <= cap {
                sum_of(widths@.take(i as int))
            } else {
                cap as int
            },
            0 <= sum_of(widths@.take(i as int)),
        decreases widths.len() - i,
    {
        proof {
            assert(widths@.take(i + 1).drop_last() =~= widths@.take(i as int));
            assert(widths@.take(i + 1).last() == widths@[i as int]);
        }
        total = capped_sum(total, widths[i], cap);
        i = i + 1;
    }
    assert(widths@.take(widths.len() as int) =~= widths@);
    if widths.len() > 0 {
        let gaps: usize = widths.len() - 1;
        let each: u64 = capped_sum(DIVIDER_PAD_SPACES as u64, divider, cap);
        let ghost exact: int = gaps * (divider + DIVIDER_PAD_SPACES);
        let ghost wide: int = divider + DIVIDER_PAD_SPACES;
        let between: u64 = if gaps == 0 {
            assert(exact == 0) by (nonlinear_arith)
                requires
                    exact == gaps * wide,
                    gaps == 0,
            ;
            0
        } else if gaps as u64 >= cap || each >= cap {
            assert(exact >= cap) by (nonlinear_arith)
                requires
                    exact == gaps * wide,
                    gaps >= 1,
                    wide >= 1,
                    gaps >= cap || wide >= cap,
            ;
            cap
        } else {
            assert(gaps * each <= 0x1_0000 * 0x1_0000) by (nonlinear_arith)
                requires
                    0 <= gaps <= 0x1_0000,
                    0 <= each <= 0x1_0000,
            ;
            let product: u64 = gaps as u64 * each;
            assert(product == exact) by (nonlinear_arith)
                requires
                    product == gaps * each,
                    each == wide,
                    exact == gaps * wide,
            ;
            if product > cap {
                cap
            } else {
                product
            }
        };
        assert(between == if exact <= cap {
            exact
        } else {
            cap as int
        });
        total = if total + between > cap {
            cap
        } else {
            total + between
        };
    }
    let total = total + SIDE_PADS as u64 + MARGIN_LEFT_RIGHT as u64;
    if total <= 0xffff {
        total as u16
    } else {
        fallback
    }
}

} // verus!
