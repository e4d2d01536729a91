//! The bar at the bottom of the screen that lists the commands at hand.

use crate::components::command::CommandInfo;
use crate::keys::SharedKeyConfig;
use crate::layout::Area;
use vstd::prelude::*;

verus! {

/// One entry of what the bar draws.
pub enum DrawListEntry {
    LineBreak,
    Splitter,
    Command(Command),
}

/// A command as the bar draws it.
pub struct Command {
    pub txt: String,
    pub enabled: bool,
    pub line: usize,
}

/// The bar of commands.
pub struct CommandBar {
    draw_list: Vec<DrawListEntry>,
    cmd_infos: Vec<CommandInfo>,
    key_config: SharedKeyConfig,
    lines: u16,
    width: u16,
    expandable: bool,
    expanded: bool,
}

/// The columns that the switch between the short and the long bar takes.
pub const MORE_WIDTH: u16 = 9;

/// What the bar holds.
pub struct CommandBarView {
    pub draw_list: Seq<DrawListEntry>,
    pub cmd_infos: Seq<CommandInfo>,
    pub lines: u16,
    pub width: u16,
    pub expandable: bool,
    pub expanded: bool,
}

/// `sorted` with `item` put behind the last entry whose order is not above
/// its own.
pub open spec fn insert_by_order(sorted: Seq<CommandInfo>, item: CommandInfo) -> Seq<CommandInfo>
    decreases sorted.len(),
{
    if sorted.len() == 0 {
        seq![item]
    } else if sorted.last().order <= item.order {
        sorted.push(item)
    } else {
        insert_by_order(sorted.drop_last(), item).push(sorted.last())
    }
}

/// `commands` by rising order; commands of the same order stay in the
/// order in which they came.
pub open spec fn by_order(commands: Seq<CommandInfo>) -> Seq<CommandInfo>
    decreases commands.len(),
{
    if commands.len() == 0 {
        seq![]
    } else {
        insert_by_order(by_order(commands.drop_last()), commands.last())
    }
}

/// The commands among `commands` that the bar shows.
pub open spec fn shown_commands(commands: Seq<CommandInfo>) -> Seq<CommandInfo> {
    commands.filter(|c: CommandInfo| c.shown())
}

/// Whether the orders of `commands` never fall.
pub open spec fn is_ordered(commands: Seq<CommandInfo>) -> bool {
    forall|i: int, j: int| 0 <= i <= j < commands.len() ==> commands[i].order <= commands[j].order
}

impl View for CommandBar {
    type V = CommandBarView;

    closed spec fn view(&self) -> CommandBarView {
        CommandBarView {
            draw_list: self.draw_list@,
            cmd_infos: self.cmd_infos@,
            lines: self.lines,
            width: self.width,
            expandable: self.expandable,
            expanded: self.expanded,
        }
    }
}

impl CommandBar {
    /// The key bindings the bar was made with.
    pub closed spec fn bindings(&self) -> SharedKeyConfig {
        self.key_config
    }

    /// An empty bar of one line.
    pub fn new(key_config: SharedKeyConfig) -> (bar: Self)
        ensures
            bar@ == (CommandBarView {
                draw_list: Seq::<DrawListEntry>::empty(),
                cmd_infos: Seq::<CommandInfo>::empty(),
                lines: 0,
                width: 0,
                expandable: false,
                expanded: false,
            }),
            bar.bindings() == key_config,
    {
        CommandBar {
            draw_list: Vec::new(),
            cmd_infos: Vec::new(),
            key_config,
            lines: 0,
            width: 0,
            expandable: false,
            expanded: false,
        }
    }

    /// Tells the bar the width of the screen. Only the width it already has
    /// is taken: with another one the bar would have to lay itself out
    /// again, which it cannot do yet.
    pub fn refresh_width(&mut self, width: u16)
        requires
            width == old(self)@.width,
        ensures
            *final(self) == *old(self),
        decreases 0int,
    {
        if width != self.width {
            self.refresh_width(width);
            self.width = width;
        }
    }

    /// Lays the commands out for `width` columns; nothing is laid out yet.
    pub fn refresh_list(&mut self, width: u16)
        ensures
            *final(self) == *old(self),
    {
    }

    /// Takes over the commands to show: those of `cmds` that are not hidden
    /// and are available, by rising order.
    pub fn set_cmds(&mut self, cmds: Vec<CommandInfo>)
        ensures
            final(self)@ == (CommandBarView {
                cmd_infos: by_order(shown_commands(cmds@)),
                ..old(self)@
            }),
            final(self).bindings() == old(self).bindings(),
    {
        let ghost given = cmds@;
        let mut rest = cmds;
        let mut kept: Vec<CommandInfo> = Vec::new();
        let ghost mut done: int = 0;
        proof {
            assert(given.take(0) =~= Seq::<CommandInfo>::empty());
            assert(given.skip(0) =~= given);
        }
        while rest.len() > 0
            invariant
                0 <= done <= given.len(),
                rest@ == given.skip(done),
                kept@ == by_order(shown_commands(given.take(done))),
            decreases rest.len(),
        {
            let item = rest.remove(0);
            let ghost before = shown_commands(given.take(done));
            proof {
                let now = given.take(done + 1);
                assert(now.drop_last() =~= given.take(done));
                assert(now.last() == item);
                assert(rest@ =~= given.skip(done + 1));
                assert(shown_commands(now) == if item.shown() {
                    before.push(item)
                } else {
                    before
                }) by {
                    reveal(Seq::filter);
                }
                assert(before.push(item).drop_last() =~= before);
            }
            if item.show_in_quickbar() {
                let mut at: usize = kept.len();
                while at > 0 && kept[at - 1].order > item.order
                    invariant
                        0 <= at <= kept.len(),
                        forall|k: int| at <= k < kept.len() ==> kept[k].order > item.order,
                    decreases at,
                {
                    at = at - 1;
                }
                proof {
                    lemma_insert_position(kept@, item, at as int);
                }
                kept.insert(at, item);
            }
            proof {
                done = done + 1;
            }
        }
        proof {
            assert(given.take(done) =~= given);
        }
        self.cmd_infos = kept;
        self.refresh_list(self.width);
    }

    /// The commands that the bar shows, in the order in which it shows
    /// them.
    pub fn cmds(&self) -> (commands: &Vec<CommandInfo>)
        ensures
            commands@ == self@.cmd_infos,
    {
        &self.cmd_infos
    }

    /// The lines that the bar takes on the screen: all its lines if it is
    /// opened out, else one.
    pub fn height(&self) -> (lines: u16)
        ensures
            lines == if self@.expandable && self@.expanded {
                self@.lines
            } else {
                1u16
            },
    {
        if self.expandable && self.expanded {
            self.lines
        } else {
            1_u16
        }
    }

    /// What the bar has to draw, entry by entry.
    pub fn draw_list(&self) -> (entries: &Vec<DrawListEntry>)
        ensures
            entries@ == self@.draw_list,
    {
        &self.draw_list
    }

    /// Whether the bar draws itself in `r`: it does not if `r` has no room
    /// for the switch between the short and the long bar.
    pub fn fits(&self, r: Area) -> (fits: bool)
        ensures
            fits == (r.width >= MORE_WIDTH),
    {
        r.width >= MORE_WIDTH
    }

    /// Where in `r` the switch between the short and the long bar is
    /// drawn: on the last line, as wide as the switch. `None` if the bar
    /// has nothing to open out, or does not draw itself in `r`.
    pub fn more_area(&self, r: Area) -> (area: Option<Area>)
        requires
            r.last_row() <= u16::MAX,
        ensures
            area == if self@.expandable && r.width >= MORE_WIDTH {
                Some(
                    Area {
                        x: (r.width - MORE_WIDTH) as u16,
                        y: r.last_row() as u16,
                        width: MORE_WIDTH,
                        height: if r.height == 0 {
                            0u16
                        } else {
                            1u16
                        },
                    },
                )
            } else {
                None
            },
    {
        if r.width < MORE_WIDTH || !self.expandable {
            return None;
        }
        let height: u16 = if r.height < 1 {
            r.height
        } else {
            1
        };
        Some(
            Area::new(
                r.width.saturating_sub(MORE_WIDTH),
                r.y + r.height.saturating_sub(1),
                MORE_WIDTH,
                height,
            ),
        )
    }

    /// What the switch between the short and the long bar says.
    pub fn more_label(&self) -> (label: &'static str)
        ensures
            label@ == if self@.expanded {
                "less [.]"@
            } else {
                "more [.]"@
            },
    {
        if self.expanded {
            "less [.]"
        } else {
            "more [.]"
        }
    }

    /// Opens the bar out, or folds it again, if it has more than one line
    /// to show.
    pub fn toggle_more(&mut self)
        ensures
            final(self)@ == (CommandBarView {
                expanded: if old(self)@.expandable {
                    !old(self)@.expanded
                } else {
                    old(self)@.expanded
                },
                ..old(self)@
            }),
            final(self).bindings() == old(self).bindings(),
    {
        if self.expandable {
            self.expanded = !self.expanded;
        }
    }
}

/// Where an item goes into an ordered list: behind every entry whose order
/// is not above its own.
proof fn lemma_insert_position(sorted: Seq<CommandInfo>, item: CommandInfo, at: int)
    requires
        0 <= at <= sorted.len(),
        forall|k: int| at <= k < sorted.len() ==> sorted[k].order > item.order,
        at > 0 ==> sorted[at - 1].order <= item.order,
    ensures
        insert_by_order(sorted, item) == sorted.insert(at, item),
    decreases sorted.len(),
{
    if sorted.len() == 0 {
        assert(sorted.insert(at, item) =~= seq![item]);
    } else if at == sorted.len() {
        assert(sorted.insert(at, item) =~= sorted.push(item));
    } else {
        lemma_insert_position(sorted.drop_last(), item, at);
        assert(sorted.insert(at, item) =~= sorted.drop_last().insert(at, item).push(
            sorted.last(),
        ));
    }
}

/// The commands of `commands` whose order is `order`, as they come.
pub open spec fn of_order(commands: Seq<CommandInfo>, order: i8) -> Seq<CommandInfo> {
    commands.filter(|c: CommandInfo| c.order == order)
}

proof fn lemma_of_order_push(commands: Seq<CommandInfo>, item: CommandInfo, order: i8)
    ensures
        of_order(commands.push(item), order) == if item.order == order {
            of_order(commands, order).push(item)
        } else {
            of_order(commands, order)
        },
{
    reveal(Seq::filter);
    assert(commands.push(item).drop_last() =~= commands);
}

proof fn lemma_insert_keeps_order(sorted: Seq<CommandInfo>, item: CommandInfo)
    requires
        is_ordered(sorted),
    ensures
        is_ordered(insert_by_order(sorted, item)),
        insert_by_order(sorted, item).len() == sorted.len() + 1,
        forall|i: int|
            0 <= i < insert_by_order(sorted, item).len() ==> #[trigger] insert_by_order(
                sorted,
                item,
            )[i] == item || exists|j: int|
                0 <= j < sorted.len() && sorted[j] == insert_by_order(sorted, item)[i],
    decreases sorted.len(),
{
    if sorted.len() == 0 {
    } else if sorted.last().order <= item.order {
        let placed = sorted.push(item);
        assert forall|i: int| 0 <= i < placed.len() implies #[trigger] placed[i] == item
            || exists|j: int| 0 <= j < sorted.len() && sorted[j] == placed[i] by {
            if i < sorted.len() {
                assert(sorted[i] == placed[i]);
            }
        }
    } else {
        let front = sorted.drop_last();
        lemma_insert_keeps_order(front, item);
        let inner = insert_by_order(front, item);
        let placed = inner.push(sorted.last());
        assert forall|i: int, j: int| 0 <= i <= j < placed.len() implies placed[i].order
            <= placed[j].order by {
            if j == placed.len() - 1 && i < j {
                if inner[i] != item {
                    let k = choose|k: int| 0 <= k < front.len() && front[k] == inner[i];
                    assert(sorted[k] == front[k]);
                }
            }
        }
        assert forall|i: int| 0 <= i < placed.len() implies #[trigger] placed[i] == item
            || exists|j: int| 0 <= j < sorted.len() && sorted[j] == placed[i] by {
            if i < inner.len() {
                if inner[i] != item {
                    let k = choose|k: int| 0 <= k < front.len() && front[k] == inner[i];
                    assert(sorted[k] == placed[i]);
                }
            } else {
                assert(sorted[sorted.len() - 1] == placed[i]);
            }
        }
    }
}

proof fn lemma_insert_keeps_each_order(sorted: Seq<CommandInfo>, item: CommandInfo, order: i8)
    ensures
        of_order(insert_by_order(sorted, item), order) == if item.order == order {
            of_order(sorted, order).push(item)
        } else {
            of_order(sorted, order)
        },
    decreases sorted.len(),
{
    if sorted.len() == 0 {
        lemma_of_order_push(sorted, item, order);
        assert(sorted.push(item) =~= seq![item]);
    } else if sorted.last().order <= item.order {
        lemma_of_order_push(sorted, item, order);
    } else {
        let front = sorted.drop_last();
        lemma_insert_keeps_each_order(front, item, order);
        lemma_of_order_push(insert_by_order(front, item), sorted.last(), order);
        lemma_of_order_push(front, sorted.last(), order);
        assert(front.push(sorted.last()) =~= sorted);
    }
}

/// The commands in the bar are in rising order, they are as many as were
/// given, and those of one order stand as they were given: the order
/// among commands of the same order is kept.
pub proof fn lemma_by_order_sorts_and_keeps(commands: Seq<CommandInfo>, order: i8)
    ensures
        is_ordered(by_order(commands)),
        by_order(commands).len() == commands.len(),
        of_order(by_order(commands), order) == of_order(commands, order),
    decreases commands.len(),
{
    if commands.len() > 0 {
        let front = commands.drop_last();
        lemma_by_order_sorts_and_keeps(front, order);
        lemma_insert_keeps_order(by_order(front), commands.last());
        lemma_insert_keeps_each_order(by_order(front), commands.last(), order);
        lemma_of_order_push(front, commands.last(), order);
        assert(front.push(commands.last()) =~= commands);
    }
}

/// The bar shows no command that is hidden or not available.
pub proof fn lemma_bar_shows_only_shown(commands: Seq<CommandInfo>, i: int)
    requires
        0 <= i < shown_commands(commands).len(),
    ensures
        shown_commands(commands)[i].shown(),
        commands.contains(shown_commands(commands)[i]),
{
    commands.lemma_filter_pred(|c: CommandInfo| c.shown(), i);
    let shown = shown_commands(commands);
    assert(shown.contains(shown[i]));
    commands.lemma_filter_contains_rev(|c: CommandInfo| c.shown(), shown[i]);
}

} // verus!
