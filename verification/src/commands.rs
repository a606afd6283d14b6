use vstd::prelude::*;

verus! {

/// A named shell command that can be run on an item.
#[derive(Debug)]
pub struct Command {
    pub name: String,
    pub command: String,
}

/// The commands that belong to one list.
#[derive(Debug)]
pub struct CommandList {
    pub list: String,
    pub commands: Vec<Command>,
}

/// All command lists, which one is selected, which command in it is
/// selected, and a flat copy of all commands with the range that each list
/// occupies in it.
#[derive(Debug)]
pub struct CommandLists {
    pub lists: Vec<CommandList>,
    pub selected_list: usize,
    pub selected_command: usize,
    pub commands: Vec<Command>,
    pub list_ranges: Vec<(usize, usize)>,
}

impl Command {
    pub fn new(name: String, command: String) -> (r: Command)
        ensures
            r.name == name,
            r.command == command,
    {
        Command { name, command }
    }

    /// An exact copy.
    pub fn copy(&self) -> (r: Command)
        ensures
            r == *self,
    {
        Command { name: self.name.clone(), command: self.command.clone() }
    }
}

/// Appends copies of `src` to `dst`.
pub fn append_copies(dst: &mut Vec<Command>, src: &Vec<Command>)
    ensures
        final(dst)@ == old(dst)@ + src@,
{
    let ghost before = dst@;
    let n = src.len();
    let mut j: usize = 0;
    while j < n
        invariant
            0 <= j <= n,
            n == src@.len(),
            dst@ =~= before + src@.take(j as int),
        decreases n - j,
    {
        let c = src[j].copy();
        dst.push(c);
        j = j + 1;
    }
    assert(src@.take(n as int) =~= src@);
}

/// All commands of `lists`, list after list.
pub open spec fn flatten(lists: Seq<CommandList>) -> Seq<Command>
    decreases lists.len(),
{
    if lists.len() == 0 {
        Seq::empty()
    } else {
        flatten(lists.drop_last()) + lists.last().commands@
    }
}

/// How many commands the first `i` lists hold together.
pub open spec fn prefix_count(lists: Seq<CommandList>, i: int) -> int {
    flatten(lists.take(i)).len() as int
}

/// The range `lists[i]` occupies in the flat command sequence.
pub open spec fn range_of(lists: Seq<CommandList>, i: int) -> (usize, usize) {
    (prefix_count(lists, i) as usize, prefix_count(lists, i + 1) as usize)
}

proof fn lemma_flatten_take_step(lists: Seq<CommandList>, i: int)
    requires
        0 <= i < lists.len(),
    ensures
        flatten(lists.take(i + 1)) == flatten(lists.take(i)) + lists[i].commands@,
{
    assert(lists.take(i + 1).drop_last() =~= lists.take(i));
}

proof fn lemma_prefix_count_mono(lists: Seq<CommandList>, i: int, j: int)
    requires
        0 <= i <= j <= lists.len(),
    ensures
        prefix_count(lists, i) <= prefix_count(lists, j),
        flatten(lists.take(j)).subrange(0, prefix_count(lists, i)) == flatten(lists.take(i)),
    decreases j - i,
{
    if i < j {
        lemma_prefix_count_mono(lists, i, j - 1);
        lemma_flatten_take_step(lists, j - 1);
        assert(flatten(lists.take(j)).subrange(0, prefix_count(lists, i)) =~= flatten(
            lists.take(j - 1),
        ).subrange(0, prefix_count(lists, i)));
    } else {
        assert(flatten(lists.take(j)).subrange(0, prefix_count(lists, i)) =~= flatten(
            lists.take(i),
        ));
    }
}

impl CommandLists {
    pub fn new() -> (r: CommandLists)
        ensures
            r.lists@ == Seq::<CommandList>::empty(),
            r.selected_list == 0,
            r.selected_command == 0,
            r.commands@ == Seq::<Command>::empty(),
            r.list_ranges@ == Seq::<(usize, usize)>::empty(),
    {
        CommandLists {
            lists: Vec::new(),
            selected_list: 0,
            selected_command: 0,
            commands: Vec::new(),
            list_ranges: Vec::new(),
        }
    }

    /// The flat command sequence and the ranges agree with `lists`.
    pub open spec fn flat_ok(self) -> bool {
        &&& flatten(self.lists@).len() <= usize::MAX
        &&& self.commands@ == flatten(self.lists@)
        &&& self.list_ranges@.len() == self.lists@.len()
        &&& forall|i: int|
            0 <= i < self.lists@.len() ==> #[trigger] self.list_ranges@[i] == range_of(
                self.lists@,
                i,
            )
    }

    /// Rebuilds the flat command sequence and the range of each list in it.
    pub fn build_flat_commands(&mut self)
        requires
            flatten(old(self).lists@).len() <= usize::MAX,
        ensures
            final(self).flat_ok(),
            final(self).lists == old(self).lists,
            final(self).selected_list == old(self).selected_list,
            final(self).selected_command == old(self).selected_command,
    {
        self.commands.clear();
        self.list_ranges.clear();
        let ghost lists0 = self.lists;
        let n = self.lists.len();
        let mut current_start: usize = 0;
        let mut i: usize = 0;
        while i < n
            invariant
                0 <= i <= n,
                self.lists == lists0,
                self.selected_list == old(self).selected_list,
                self.selected_command == old(self).selected_command,
                lists0 == old(self).lists,
                n == self.lists@.len(),
                flatten(self.lists@).len() <= usize::MAX,
                self.commands@ == flatten(self.lists@.take(i as int)),
                current_start == self.commands@.len(),
                self.list_ranges@.len() == i,
                forall|k: int|
                    0 <= k < i ==> #[trigger] self.list_ranges@[k] == range_of(self.lists@, k),
            decreases n - i,
        {
            proof {
                lemma_flatten_take_step(self.lists@, i as int);
                lemma_prefix_count_mono(self.lists@, i + 1, n as int);
                assert(self.lists@.take(n as int) =~= self.lists@);
            }
            let list_len = self.lists[i].commands.len();
            self.list_ranges.push((current_start, current_start + list_len));
            append_copies(&mut self.commands, &self.lists[i].commands);
            current_start = current_start + list_len;
            i = i + 1;
        }
        assert(self.lists@.take(n as int) =~= self.lists@);
    }

    /// The range of the selected list, or `(0, 0)` when there is none.
    pub open spec fn current_range(self) -> (usize, usize) {
        if self.selected_list < self.list_ranges@.len() {
            self.list_ranges@[self.selected_list as int]
        } else {
            (0, 0)
        }
    }

    /// Number of commands in the selected list, read off its range.
    pub open spec fn current_count(self) -> int {
        self.current_range().1 - self.current_range().0
    }

    /// The range of the selected list in the flat command sequence, or
    /// `(0, 0)` when no list is selected.
    pub fn get_current_list_range(&self) -> (r: (usize, usize))
        ensures
            r == self.current_range(),
    {
        if self.selected_list < self.list_ranges.len() {
            self.list_ranges[self.selected_list]
        } else {
            (0, 0)
        }
    }

    /// Number of commands in the selected list.
    pub fn get_current_list_commands_count(&self) -> (r: usize)
        requires
            self.current_range().0 <= self.current_range().1,
        ensures
            r == self.current_count(),
    {
        let (start, end) = self.get_current_list_range();
        end - start
    }

    /// The command after the selected one, wrapping around to the first.
    pub open spec fn next_index(self) -> usize {
        if self.current_count() > 0 {
            ((self.selected_command + 1) % self.current_count()) as usize
        } else {
            self.selected_command
        }
    }

    /// The command before the selected one, wrapping around to the last.
    pub open spec fn prev_index(self) -> usize {
        if self.current_count() > 0 {
            if self.selected_command == 0 {
                (self.current_count() - 1) as usize
            } else {
                (self.selected_command - 1) as usize
            }
        } else {
            self.selected_command
        }
    }

    /// Selects the next command of the current list, cyclically.
    pub fn next_command(&mut self)
        requires
            old(self).current_range().0 <= old(self).current_range().1,
            old(self).current_count() > 0 ==> old(self).selected_command < usize::MAX,
        ensures
            final(self).selected_command == old(self).next_index(),
            *final(self) == (CommandLists { selected_command: final(self).selected_command, ..*old(self) }),
    {
        let command_count = self.get_current_list_commands_count();
        if command_count > 0 {
            self.selected_command = (self.selected_command + 1) % command_count;
        }
    }

    /// Selects the previous command of the current list, cyclically.
    pub fn prev_command(&mut self)
        requires
            old(self).current_range().0 <= old(self).current_range().1,
        ensures
            final(self).selected_command == old(self).prev_index(),
            *final(self) == (CommandLists { selected_command: final(self).selected_command, ..*old(self) }),
    {
        let command_count = self.get_current_list_commands_count();
        if command_count > 0 {
            self.selected_command = if self.selected_command == 0 {
                command_count - 1
            } else {
                self.selected_command - 1
            };
        }
    }

    /// Selects the first list called `name` (the first list when none is),
    /// and its first command.
    pub fn select_list_named(&mut self, name: &String)
        ensures
            final(self).selected_list == selected_for(old(self).lists@, name@),
            final(self).selected_command == 0,
            final(self).lists == old(self).lists,
            final(self).commands == old(self).commands,
            final(self).list_ranges == old(self).list_ranges,
    {
        let n = self.lists.len();
        let mut i: usize = 0;
        while i < n
            invariant
                0 <= i <= n,
                n == self.lists@.len(),
                *self == *old(self),
                first_named(self.lists@, name@, 0) == first_named(self.lists@, name@, i as int),
            decreases n - i,
        {
            if self.lists[i].list == *name {
                self.selected_list = i;
                self.selected_command = 0;
                return;
            }
            i = i + 1;
        }
        self.selected_list = 0;
        self.selected_command = 0;
    }
}

/// The list `select_list_named` selects for `name`: the first list so
/// called, or the first list when none is.
pub open spec fn selected_for(lists: Seq<CommandList>, name: Seq<char>) -> usize {
    if first_named(lists, name, 0) >= 0 {
        first_named(lists, name, 0) as usize
    } else {
        0
    }
}

/// Index of the first list from `i` on whose name is `name`, or -1.
pub open spec fn first_named(lists: Seq<CommandList>, name: Seq<char>, i: int) -> int
    decreases lists.len() - i,
{
    if i < 0 || i >= lists.len() {
        -1
    } else if lists[i].list@ == name {
        i
    } else {
        first_named(lists, name, i + 1)
    }
}


/// Once the flat sequence is built, the range recorded for each list covers
/// exactly that list's commands, so the command count of a list is its
/// length.
pub proof fn lemma_ranges_cover_lists(c: CommandLists, i: int)
    requires
        c.flat_ok(),
        0 <= i < c.lists@.len(),
    ensures
        c.list_ranges@[i].0 <= c.list_ranges@[i].1 <= c.commands@.len(),
        c.commands@.subrange(c.list_ranges@[i].0 as int, c.list_ranges@[i].1 as int)
            == c.lists@[i].commands@,
{
    let lists = c.lists@;
    let n = lists.len() as int;
    lemma_prefix_count_mono(lists, i + 1, n);
    lemma_prefix_count_mono(lists, i, i + 1);
    lemma_flatten_take_step(lists, i);
    assert(lists.take(n) =~= lists);
    let f = flatten(lists.take(i + 1));
    assert(c.commands@.subrange(0, prefix_count(lists, i + 1)) == f);
    assert(c.commands@.subrange(prefix_count(lists, i), prefix_count(lists, i + 1)) =~= f.subrange(
        prefix_count(lists, i),
        prefix_count(lists, i + 1),
    ));
    assert(f.subrange(prefix_count(lists, i), prefix_count(lists, i + 1))
        =~= lists[i].commands@);
}

/// With the flat sequence built (and the lists unchanged since), the
/// command count of the selected list is the number of commands in it, or 0
/// when no list is selected, and reading it cannot underflow.
pub proof fn lemma_current_count(c: CommandLists)
    requires
        c.flat_ok(),
    ensures
        c.current_range().0 <= c.current_range().1,
        c.current_count() == if c.selected_list < c.lists@.len() {
            c.lists@[c.selected_list as int].commands@.len() as int
        } else {
            0
        },
{
    if c.selected_list < c.lists@.len() {
        lemma_ranges_cover_lists(c, c.selected_list as int);
    }
}

/// The flat sequence and the ranges are a function of the lists alone:
/// two command sets with the same lists, each rebuilt, agree on both, so
/// nothing left from before a rebuild shows in it and rebuilding again
/// changes nothing.
pub proof fn lemma_rebuild_determined(c1: CommandLists, c2: CommandLists)
    requires
        c1.flat_ok(),
        c2.flat_ok(),
        c1.lists@ == c2.lists@,
    ensures
        c1.commands@ == c2.commands@,
        c1.list_ranges@ == c2.list_ranges@,
{
    assert(c1.list_ranges@ =~= c2.list_ranges@);
}

/// Stepping to the next command and back to the previous one (or the
/// other way round) returns to the command selected before, and both keep
/// the selection inside the list.
pub proof fn lemma_next_prev_inverse(c: CommandLists)
    requires
        0 < c.current_count(),
        c.selected_command < c.current_count(),
    ensures
        c.next_index() < c.current_count(),
        c.prev_index() < c.current_count(),
        (CommandLists { selected_command: c.next_index(), ..c }).prev_index() == c.selected_command,
        (CommandLists { selected_command: c.prev_index(), ..c }).next_index() == c.selected_command,
{
    let n = c.current_count();
    if c.selected_command + 1 < n {
        assert((c.selected_command + 1) % n == c.selected_command + 1) by (nonlinear_arith)
            requires
                0 <= c.selected_command + 1 < n,
        ;
    } else {
        assert((c.selected_command + 1) % n == 0) by (nonlinear_arith)
            requires
                c.selected_command + 1 == n,
                n > 0,
        ;
    }
    if c.selected_command > 0 {
        assert(((c.selected_command - 1) + 1) % n == c.selected_command) by (nonlinear_arith)
            requires
                0 < c.selected_command < n,
        ;
    } else {
        assert(((n - 1) + 1) % n == 0) by (nonlinear_arith)
            requires
                n > 0,
        ;
    }
}

} // verus!
