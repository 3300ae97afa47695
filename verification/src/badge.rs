//! The on-device menu: navigation and member selection driven by the
//! physical buttons, the fixed-size wire form of the menu state, and the
//! badge state that ties a roster, the menu and the redraw cache together.

use vstd::bytes::{spec_u16_to_le_bytes, u16_from_le_bytes, u16_to_le_bytes};
use vstd::prelude::*;
use vstd::slice::{slice_index_get, slice_subrange};

use crate::binfmt::zeros;
use crate::draw::{cell_rect, cell_rect_spec, CellPlan, RenderPlan};
use crate::hashes::{crc16_buypass, crc16_of};
use crate::system::{zero_vec, System};
use crate::Button;

verus! {

/// Selection state of a member cell: not selected, selected for cursor
/// movement, or selected for editing which member the cell shows.
#[derive(Eq, PartialEq, Structural, Debug, Clone, Copy)]
pub enum Select {
    Unselected,
    Select,
    Edit,
}

impl Select {
    pub open spec fn spec_code(self) -> u8 {
        match self {
            Select::Unselected => 0,
            Select::Select => 1,
            Select::Edit => 2,
        }
    }

    pub fn code(self) -> (r: u8)
        ensures
            r == self.spec_code(),
    {
        match self {
            Select::Unselected => 0,
            Select::Select => 1,
            Select::Edit => 2,
        }
    }

    pub fn from_u8(value: u8) -> (r: Option<Select>)
        ensures
            r matches Some(s) ==> s.spec_code() == value,
            r is None <==> value > 2,
    {
        match value {
            0 => Some(Select::Unselected),
            1 => Some(Select::Select),
            2 => Some(Select::Edit),
            _ => None,
        }
    }

    /// The outline stroke width that shows this selection state.
    pub fn stroke_with(&self) -> (r: u32)
        ensures
            *self is Unselected ==> r == 1,
            *self is Select ==> r == 2,
            *self is Edit ==> r == 4,
    {
        match self {
            Select::Unselected => 1,
            Select::Select => 2,
            Select::Edit => 4,
        }
    }
}

/// One display slot: the roster index of the member it shows.
#[derive(Eq, PartialEq, Structural, Debug, Clone, Copy)]
pub struct MemberCell {
    pub id: u16,
}

/// The member screen's state: up to four cells, the number of active
/// cells, and the selection cursor.
#[derive(Eq, PartialEq, Debug, Clone, Copy)]
#[verifier::ext_equal]
pub struct CurrentMembers {
    pub members: [MemberCell; 4],
    pub sel: (u8, Select),
    pub len: u8,
}

/// The largest member index a cell may cycle to, for a roster of `members`
/// members.
pub open spec fn max_cell_id(members: int) -> u16
    recommends
        members >= 1,
{
    if members > 65535 {
        65535u16
    } else {
        (members - 1) as u16
    }
}

/// How one button press transforms the member screen, for a roster of
/// `members` members. Up and Down first enter selection mode, then move
/// the cursor with wraparound, and in edit mode cycle the selected cell's
/// member with wraparound. C removes the selected cell in edit mode
/// (moving the former last cell into its place) and otherwise grows the
/// screen by one cell, up to four. B toggles between selection and edit
/// mode. Everything else is a no-op.
///
/// A cell added by C keeps whatever member id its slot already held, so
/// two cells may show the same member; this mirrors the device's observed
/// behavior rather than assigning a fresh id.
pub open spec fn members_step(
    c: CurrentMembers,
    button: Button,
    members: int,
    r: CurrentMembers,
) -> bool {
    match button {
        Button::Up | Button::Down => {
            if c.sel.1 is Unselected {
                let cur: u8 = if button is Up {
                    0u8
                } else {
                    (c.len - 1) as u8
                };
                r == CurrentMembers { sel: (cur, Select::Select), ..c }
            } else if c.sel.1 is Select {
                let cur: u8 = if button is Up {
                    if c.sel.0 == 0 {
                        (c.len - 1) as u8
                    } else {
                        (c.sel.0 - 1) as u8
                    }
                } else {
                    if c.sel.0 >= c.len - 1 {
                        0u8
                    } else {
                        (c.sel.0 + 1) as u8
                    }
                };
                r == CurrentMembers { sel: (cur, Select::Select), ..c }
            } else {
                if members == 0 {
                    r == c
                } else {
                    let id = c.members@[c.sel.0 as int].id;
                    let mx = max_cell_id(members);
                    let nid: u16 = if button is Up {
                        if id >= mx {
                            0u16
                        } else {
                            (id + 1) as u16
                        }
                    } else {
                        if id == 0 {
                            mx
                        } else {
                            (id - 1) as u16
                        }
                    };
                    &&& r.len == c.len
                    &&& r.sel == c.sel
                    &&& r.members@ == c.members@.update(c.sel.0 as int, MemberCell { id: nid })
                }
            }
        },
        Button::C => {
            if c.sel.1 is Edit {
                &&& r.len == c.len - 1
                &&& r.sel == (c.sel.0, Select::Unselected)
                &&& r.members@ == if c.sel.0 != c.len - 1 {
                    c.members@.update(c.sel.0 as int, c.members@[c.len - 1])
                } else {
                    c.members@
                }
            } else {
                r == CurrentMembers {
                    sel: (c.sel.0, Select::Unselected),
                    len: if c.len < 4 {
                        (c.len + 1) as u8
                    } else {
                        c.len
                    },
                    ..c
                }
            }
        },
        Button::B => {
            let nm = if c.sel.1 is Select {
                Select::Edit
            } else {
                Select::Select
            };
            r == CurrentMembers { sel: (c.sel.0, nm), ..c }
        },
        _ => r == c,
    }
}

impl CurrentMembers {
    /// The member screen is well formed: one to four active cells, and a
    /// cursor index that stays within the four slots.
    pub open spec fn wf(self) -> bool {
        &&& 1 <= self.len <= 4
        &&& self.sel.0 < 4
    }

    pub open spec fn spec_sel_for_cell(self, idx: u8) -> Select {
        if self.sel.0 == idx {
            self.sel.1
        } else {
            Select::Unselected
        }
    }

    /// The selection state cell `idx` is drawn with.
    pub fn sel_for_cell(&self, idx: u8) -> (r: Select)
        ensures
            r == self.spec_sel_for_cell(idx),
    {
        if self.sel.0 == idx {
            self.sel.1
        } else {
            Select::Unselected
        }
    }

    /// Applies one button press to the member screen; see `members_step`
    /// for the transition table. Removing the last remaining cell is
    /// handled a level up, by the menu itself.
    pub fn button_press(&mut self, button: Button, members: usize)
        requires
            old(self).wf(),
            !(button is C && old(self).sel.1 is Edit && old(self).len == 1),
        ensures
            final(self).wf(),
            members_step(*old(self), button, members as int, *final(self)),
    {
        match button {
            Button::Up | Button::Down => {
                if self.sel.1 == Select::Unselected {
                    self.sel.1 = Select::Select;
                    if button == Button::Up {
                        self.sel.0 = 0;
                    } else {
                        self.sel.0 = self.len - 1;
                    }
                } else if self.sel.1 == Select::Select {
                    if button == Button::Up {
                        self.sel.0 = if self.sel.0 == 0 {
                            self.len - 1
                        } else {
                            self.sel.0 - 1
                        };
                    } else {
                        self.sel.0 = if self.sel.0 >= self.len - 1 {
                            0
                        } else {
                            self.sel.0 + 1
                        };
                    }
                } else {
                    if members > 0 {
                        let idx = self.sel.0 as usize;
                        let id = self.members[idx].id;
                        let mx: u16 = if members > 65535 {
                            65535
                        } else {
                            (members - 1) as u16
                        };
                        let nid: u16 = if button == Button::Up {
                            if id >= mx {
                                0
                            } else {
                                id + 1
                            }
                        } else {
                            if id == 0 {
                                mx
                            } else {
                                id - 1
                            }
                        };
                        self.members[idx] = MemberCell { id: nid };
                    }
                }
            },
            Button::C => {
                if self.sel.1 == Select::Edit {
                    self.len = self.len - 1;
                    if self.sel.0 != self.len {
                        let last = self.members[self.len as usize];
                        self.members[self.sel.0 as usize] = last;
                    }
                    self.sel.1 = Select::Unselected;
                } else {
                    self.sel.1 = Select::Unselected;
                    if self.len < 4 {
                        self.len = self.len + 1;
                    }
                }
            },
            Button::B => {
                if self.sel.1 == Select::Select {
                    self.sel.1 = Select::Edit;
                } else {
                    self.sel.1 = Select::Select;
                }
            },
            _ => {},
        }
    }
}

impl Default for CurrentMembers {
    /// The member screen first entered from the name screen: one cell
    /// showing member zero, cursor on it in selection mode.
    fn default() -> (r: Self)
        ensures
            r.wf(),
            r.len == 1,
            r.sel == (0u8, Select::Select),
            r.members@ == Seq::new(4, |i: int| MemberCell { id: 0 }),
    {
        let r = CurrentMembers {
            members: [
                MemberCell { id: 0 },
                MemberCell { id: 0 },
                MemberCell { id: 0 },
                MemberCell { id: 0 },
            ],
            sel: (0, Select::Select),
            len: 1,
        };
        proof {
            assert(r.members@ =~= Seq::new(4, |i: int| MemberCell { id: 0 }));
        }
        r
    }
}

/// What the badge currently shows.
#[derive(Eq, PartialEq, Debug, Clone, Copy)]
pub enum CurrentMenu {
    /// The system name screen.
    SystemName,
    /// The firmware version screen.
    Version,
    /// The member screen.
    Member(CurrentMembers),
    /// The placeholder shown while an update sequence is running; it
    /// blocks normal navigation.
    Updating,
    /// The screen shown when no usable roster is loaded; terminal.
    InvalidSystem,
}

/// How one button press transforms the menu: B toggles between the name
/// and version screens, C enters the member screen from the name screen,
/// and C on the last remaining cell in edit mode leaves it again. All
/// other presses on the member screen are delegated to the member screen's
/// own transition. The updating and invalid-system screens ignore every
/// button.
pub open spec fn menu_step(pre: CurrentMenu, button: Button, members: int, post: CurrentMenu) -> bool {
    match pre {
        CurrentMenu::SystemName => {
            if button is B {
                post == CurrentMenu::Version
            } else if button is C {
                &&& post matches CurrentMenu::Member(nc)
                &&& nc.len == 1
                &&& nc.sel == (0u8, Select::Select)
                &&& nc.members@ == Seq::new(4, |i: int| MemberCell { id: 0 })
            } else {
                post == pre
            }
        },
        CurrentMenu::Version => {
            if button is B {
                post == CurrentMenu::SystemName
            } else {
                post == pre
            }
        },
        CurrentMenu::Member(c) => {
            if button is C && c.len == 1 && c.sel.1 is Edit {
                post == CurrentMenu::SystemName
            } else {
                post matches CurrentMenu::Member(nc) && members_step(c, button, members, nc)
            }
        },
        CurrentMenu::Updating => post == pre,
        CurrentMenu::InvalidSystem => post == pre,
    }
}

/// Byte tag of each menu screen in the wire form.
pub open spec fn menu_tag(m: CurrentMenu) -> u8 {
    match m {
        CurrentMenu::SystemName => 0,
        CurrentMenu::Version => 1,
        CurrentMenu::Member(_) => 2,
        CurrentMenu::Updating => 3,
        CurrentMenu::InvalidSystem => 4,
    }
}

/// Size in bytes of the menu state's fixed wire form.
pub const STATE_LEN: usize = 12;

/// The fixed 12-byte wire form of the menu state: the screen tag, the four
/// cell ids little-endian, the active cell count, and the cursor's index
/// and mode. Screens other than the member screen carry zero padding.
pub open spec fn menu_bytes(m: CurrentMenu) -> Seq<u8> {
    match m {
        CurrentMenu::Member(c) => seq![2u8] + spec_u16_to_le_bytes(c.members@[0].id)
            + spec_u16_to_le_bytes(c.members@[1].id) + spec_u16_to_le_bytes(c.members@[2].id)
            + spec_u16_to_le_bytes(c.members@[3].id) + seq![c.len, c.sel.0, c.sel.1.spec_code()],
        _ => seq![menu_tag(m)] + zeros(11),
    }
}

/// Exactly the byte strings some well-formed menu state encodes to.
pub open spec fn valid_state_bytes(b: Seq<u8>) -> bool {
    &&& b.len() == STATE_LEN
    &&& {
        ||| (b[0] == 0 || b[0] == 1 || b[0] == 3 || b[0] == 4) && (forall|k: int|
            1 <= k < STATE_LEN ==> b[k] == 0)
        ||| b[0] == 2 && 1 <= b[9] <= 4 && b[10] < 4 && b[11] <= 2
    }
}

proof fn lemma_menu_bytes_member(c: CurrentMembers)
    ensures
        menu_bytes(CurrentMenu::Member(c)).len() == STATE_LEN,
        menu_bytes(CurrentMenu::Member(c))[0] == 2,
        menu_bytes(CurrentMenu::Member(c)).subrange(1, 3) == spec_u16_to_le_bytes(
            c.members@[0].id,
        ),
        menu_bytes(CurrentMenu::Member(c)).subrange(3, 5) == spec_u16_to_le_bytes(
            c.members@[1].id,
        ),
        menu_bytes(CurrentMenu::Member(c)).subrange(5, 7) == spec_u16_to_le_bytes(
            c.members@[2].id,
        ),
        menu_bytes(CurrentMenu::Member(c)).subrange(7, 9) == spec_u16_to_le_bytes(
            c.members@[3].id,
        ),
        menu_bytes(CurrentMenu::Member(c))[9] == c.len,
        menu_bytes(CurrentMenu::Member(c))[10] == c.sel.0,
        menu_bytes(CurrentMenu::Member(c))[11] == c.sel.1.spec_code(),
{
    vstd::bytes::lemma_auto_spec_u16_to_from_le_bytes();
    let b = menu_bytes(CurrentMenu::Member(c));
    assert(b.subrange(1, 3) =~= spec_u16_to_le_bytes(c.members@[0].id));
    assert(b.subrange(3, 5) =~= spec_u16_to_le_bytes(c.members@[1].id));
    assert(b.subrange(5, 7) =~= spec_u16_to_le_bytes(c.members@[2].id));
    assert(b.subrange(7, 9) =~= spec_u16_to_le_bytes(c.members@[3].id));
}

proof fn lemma_menu_bytes_other(m: CurrentMenu)
    requires
        !(m is Member),
    ensures
        menu_bytes(m).len() == STATE_LEN,
        menu_bytes(m)[0] == menu_tag(m),
        forall|k: int| 1 <= k < STATE_LEN ==> menu_bytes(m)[k] == 0,
{
}

/// Two well-formed menu states with the same wire form are the same
/// state: the wire form hides nothing.
pub proof fn lemma_menu_bytes_injective(m1: CurrentMenu, m2: CurrentMenu)
    requires
        m1.wf(),
        m2.wf(),
        menu_bytes(m1) == menu_bytes(m2),
    ensures
        m1 == m2,
{
    vstd::bytes::lemma_auto_spec_u16_to_from_le_bytes();
    match m1 {
        CurrentMenu::Member(c1) => {
            lemma_menu_bytes_member(c1);
            match m2 {
                CurrentMenu::Member(c2) => {
                    lemma_menu_bytes_member(c2);
                    assert(c1.members@[0].id == c2.members@[0].id) by {
                        assert(spec_u16_to_le_bytes(c1.members@[0].id) == spec_u16_to_le_bytes(
                            c2.members@[0].id,
                        ));
                    }
                    assert(c1.members@[1].id == c2.members@[1].id) by {
                        assert(spec_u16_to_le_bytes(c1.members@[1].id) == spec_u16_to_le_bytes(
                            c2.members@[1].id,
                        ));
                    }
                    assert(c1.members@[2].id == c2.members@[2].id) by {
                        assert(spec_u16_to_le_bytes(c1.members@[2].id) == spec_u16_to_le_bytes(
                            c2.members@[2].id,
                        ));
                    }
                    assert(c1.members@[3].id == c2.members@[3].id) by {
                        assert(spec_u16_to_le_bytes(c1.members@[3].id) == spec_u16_to_le_bytes(
                            c2.members@[3].id,
                        ));
                    }
                    assert(c1.sel.1 == c2.sel.1) by {
                        assert(c1.sel.1.spec_code() == c2.sel.1.spec_code());
                    }
                    assert forall|i: int| 0 <= i < 4 implies c1.members@[i] == c2.members@[i] by {
                        assert(c1.members@[i] == MemberCell { id: c1.members@[i].id });
                        assert(c2.members@[i] == MemberCell { id: c2.members@[i].id });
                    }
                    assert(c1.members@ =~= c2.members@);
                    assert(c1 =~= c2);
                },
                _ => {
                    lemma_menu_bytes_other(m2);
                    assert(false);
                },
            }
        },
        _ => {
            lemma_menu_bytes_other(m1);
            match m2 {
                CurrentMenu::Member(c2) => {
                    lemma_menu_bytes_member(c2);
                    assert(false);
                },
                _ => {
                    lemma_menu_bytes_other(m2);
                    assert(menu_tag(m1) == menu_tag(m2));
                },
            }
        },
    }
}

/// A well-formed menu state's wire form is accepted back by the decoder.
pub proof fn lemma_menu_bytes_valid(m: CurrentMenu)
    requires
        m.wf(),
    ensures
        menu_bytes(m).len() == STATE_LEN,
        valid_state_bytes(menu_bytes(m)),
{
    match m {
        CurrentMenu::Member(c) => {
            lemma_menu_bytes_member(c);
        },
        _ => {
            lemma_menu_bytes_other(m);
        },
    }
}

impl CurrentMenu {
    /// The menu state is well formed: the member screen, if shown, is.
    pub open spec fn wf(self) -> bool {
        match self {
            CurrentMenu::Member(c) => c.wf(),
            _ => true,
        }
    }

    /// Applies one button press; see `menu_step` for the transition table.
    pub fn change(&mut self, button: Button, members: usize)
        requires
            old(self).wf(),
        ensures
            final(self).wf(),
            menu_step(*old(self), button, members as int, *final(self)),
    {
        match self {
            CurrentMenu::SystemName => {
                if button == Button::B {
                    *self = CurrentMenu::Version;
                } else if button == Button::C {
                    *self = CurrentMenu::Member(Default::default());
                }
            },
            CurrentMenu::Version => {
                if button == Button::B {
                    *self = CurrentMenu::SystemName;
                }
            },
            CurrentMenu::Member(c) => {
                if button == Button::C && c.len == 1 && c.sel.1 == Select::Edit {
                    *self = CurrentMenu::SystemName;
                } else {
                    c.button_press(button, members);
                }
            },
            CurrentMenu::Updating => {},
            CurrentMenu::InvalidSystem => {},
        }
    }

    /// The fixed-size wire form of this state, for `GetState` and for the
    /// redraw cache.
    pub fn as_bytes(&self) -> (r: Vec<u8>)
        requires
            self.wf(),
        ensures
            r@ == menu_bytes(*self),
            r@.len() == STATE_LEN,
    {
        proof {
            lemma_menu_bytes_valid(*self);
        }
        match self {
            CurrentMenu::Member(c) => {
                let mut out: Vec<u8> = Vec::new();
                out.push(2);
                let mut t = u16_to_le_bytes(c.members[0].id);
                out.append(&mut t);
                let mut t = u16_to_le_bytes(c.members[1].id);
                out.append(&mut t);
                let mut t = u16_to_le_bytes(c.members[2].id);
                out.append(&mut t);
                let mut t = u16_to_le_bytes(c.members[3].id);
                out.append(&mut t);
                out.push(c.len);
                out.push(c.sel.0);
                out.push(c.sel.1.code());
                proof {
                    assert(out@ =~= menu_bytes(*self));
                }
                out
            },
            _ => {
                let tag: u8 = match self {
                    CurrentMenu::SystemName => 0,
                    CurrentMenu::Version => 1,
                    CurrentMenu::Member(_) => 2,
                    CurrentMenu::Updating => 3,
                    CurrentMenu::InvalidSystem => 4,
                };
                let mut out: Vec<u8> = Vec::new();
                out.push(tag);
                let mut z = zero_vec(11);
                out.append(&mut z);
                proof {
                    assert(out@ =~= menu_bytes(*self));
                }
                out
            },
        }
    }

    /// Decodes a wire form back into a menu state. Accepts exactly the
    /// canonical encodings of well-formed states; anything else, including
    /// a blob of the wrong length, is rejected rather than trusted.
    #[verifier::loop_isolation(false)]
    pub fn from_bytes(bytes: &[u8]) -> (r: Option<CurrentMenu>)
        ensures
            r is Some <==> valid_state_bytes(bytes@),
            r matches Some(m) ==> m.wf() && menu_bytes(m) == bytes@,
    {
        if bytes.len() != STATE_LEN {
            return None;
        }
        let tag = *slice_index_get(bytes, 0);
        if tag == 2 {
            let id0 = u16_from_le_bytes(slice_subrange(bytes, 1, 3));
            let id1 = u16_from_le_bytes(slice_subrange(bytes, 3, 5));
            let id2 = u16_from_le_bytes(slice_subrange(bytes, 5, 7));
            let id3 = u16_from_le_bytes(slice_subrange(bytes, 7, 9));
            let len = *slice_index_get(bytes, 9);
            let cur = *slice_index_get(bytes, 10);
            let mode = *slice_index_get(bytes, 11);
            if !(1 <= len && len <= 4) || cur >= 4 || mode > 2 {
                return None;
            }
            let sel1 = match Select::from_u8(mode) {
                Some(s) => s,
                Option::None => {
                    return None;
                },
            };
            let c = CurrentMembers {
                members: [
                    MemberCell { id: id0 },
                    MemberCell { id: id1 },
                    MemberCell { id: id2 },
                    MemberCell { id: id3 },
                ],
                sel: (cur, sel1),
                len,
            };
            proof {
                lemma_menu_bytes_member(c);
                vstd::bytes::lemma_auto_spec_u16_to_from_le_bytes();
                assert(menu_bytes(CurrentMenu::Member(c)) =~= bytes@);
            }
            Some(CurrentMenu::Member(c))
        } else {
            let m = match tag {
                0 => CurrentMenu::SystemName,
                1 => CurrentMenu::Version,
                3 => CurrentMenu::Updating,
                4 => CurrentMenu::InvalidSystem,
                _ => {
                    return None;
                },
            };
            let mut k: usize = 1;
            while k < STATE_LEN
                invariant
                    1 <= k <= STATE_LEN,
                    bytes@.len() == STATE_LEN,
                    forall|j: int| 1 <= j < k ==> bytes@[j] == 0,
                decreases STATE_LEN - k,
            {
                if *slice_index_get(bytes, k) != 0 {
                    return None;
                }
                k = k + 1;
            }
            proof {
                lemma_menu_bytes_other(m);
                assert(menu_bytes(m) =~= bytes@);
            }
            Some(m)
        }
    }
}

/// The badge: the loaded roster (if a usable one exists), the cached
/// serial string, the menu state, and the redraw cache.
pub struct Sysbadge<S: System> {
    /// The active roster, or nothing when none was loaded.
    pub system: Option<S>,
    /// The device serial, once read from hardware.
    pub serial: Option<String>,
    /// The menu state shown.
    pub current: CurrentMenu,
    /// The checksum of the menu state as of the last completed redraw.
    pub hash: u16,
}

impl<S: System> Sysbadge<S> {
    /// The menu state shown.
    pub open spec fn current_spec(&self) -> CurrentMenu {
        self.current
    }

    /// The checksum of the menu state as of the last completed redraw.
    pub open spec fn hash_spec(&self) -> u16 {
        self.hash
    }

    pub open spec fn wf(&self) -> bool {
        self.current_spec().wf()
    }

    /// How many members the active roster has; none without a roster.
    pub open spec fn spec_member_count(&self) -> int {
        match self.system {
            Some(ref s) => s.sys().members.len() as int,
            None => 0,
        }
    }

    /// A fresh badge showing the name screen, or the invalid-system
    /// screen when no usable roster was handed in.
    pub fn new(system: Option<S>) -> (r: Sysbadge<S>)
        ensures
            r.system == system,
            r.serial is None,
            r.hash_spec() == 0,
            r.wf(),
            (match system {
                Some(ref s) => r.current_spec() == (if s.spec_is_valid() {
                    CurrentMenu::SystemName
                } else {
                    CurrentMenu::InvalidSystem
                }),
                None => r.current_spec() == CurrentMenu::InvalidSystem,
            }),
    {
        let current = match &system {
            Some(s) => {
                if s.is_valid() {
                    CurrentMenu::SystemName
                } else {
                    CurrentMenu::InvalidSystem
                }
            },
            Option::None => CurrentMenu::InvalidSystem,
        };
        Sysbadge { system, serial: None, current, hash: 0 }
    }

    /// Applies one button press to the menu, against the active roster's
    /// member count.
    pub fn press(&mut self, button: Button)
        requires
            old(self).wf(),
        ensures
            final(self).wf(),
            menu_step(
                old(self).current_spec(),
                button,
                old(self).spec_member_count(),
                final(self).current_spec(),
            ),
            final(self).system == old(self).system,
            final(self).serial == old(self).serial,
            final(self).hash_spec() == old(self).hash_spec(),
    {
        let members = match &self.system {
            Some(s) => s.member_count(),
            Option::None => 0,
        };
        self.current.change(button, members);
    }

    /// The checksum of the menu state's wire form, used to skip redraws.
    fn state_hash(&self) -> (r: u16)
        requires
            self.wf(),
        ensures
            r == crc16_of(menu_bytes(self.current_spec())),
    {
        let bytes = self.current.as_bytes();
        crc16_buypass(bytes.as_slice())
    }

    /// Plans a redraw only if the menu state changed since the last
    /// completed redraw: the panel is slow and power-costly, so an
    /// unchanged state flushes nothing. Returns the plan to execute, or
    /// nothing when the panel already shows the current state.
    pub fn draw(&mut self, width: u32, height: u32) -> (r: Option<RenderPlan>)
        requires
            old(self).wf(),
        ensures
            final(self).current_spec() == old(self).current_spec(),
            final(self).system == old(self).system,
            final(self).serial == old(self).serial,
            final(self).hash_spec() == crc16_of(menu_bytes(old(self).current_spec())),
            r is Some <==> old(self).hash_spec() != crc16_of(menu_bytes(old(self).current_spec())),
            r matches Some(p) ==> render_plan_matches(old(self).current_spec(), width, height, p),
    {
        let h = self.state_hash();
        if h == self.hash {
            return None;
        }
        self.hash = h;
        Some(self.force_draw(width, height))
    }

    /// Plans a redraw unconditionally, bypassing the redraw cache.
    pub fn force_draw(&self, width: u32, height: u32) -> (r: RenderPlan)
        requires
            self.wf(),
        ensures
            render_plan_matches(self.current_spec(), width, height, r),
    {
        match &self.current {
            CurrentMenu::SystemName => RenderPlan::Name,
            CurrentMenu::Version => RenderPlan::Version,
            CurrentMenu::Updating => RenderPlan::Updating,
            CurrentMenu::InvalidSystem => RenderPlan::Invalid,
            CurrentMenu::Member(c) => {
                let mut cells: Vec<CellPlan> = Vec::new();
                let mut i: u8 = 0;
                while i < c.len
                    invariant
                        i <= c.len,
                        c.wf(),
                        cells@.len() == i as int,
                        forall|j: int| 0 <= j < i ==> cells@[j] == (CellPlan {
                            rect: cell_rect_spec(width, height, c.len, j as u8),
                            member_id: c.members@[j].id,
                            select: c.spec_sel_for_cell(j as u8),
                        }),
                    decreases c.len - i,
                {
                    let rect = cell_rect(width, height, c.len, i);
                    let cell = CellPlan {
                        rect,
                        member_id: c.members[i as usize].id,
                        select: c.sel_for_cell(i),
                    };
                    cells.push(cell);
                    i = i + 1;
                }
                RenderPlan::Cells(cells)
            },
        }
    }

    /// The menu state shown.
    pub fn current(&self) -> (r: &CurrentMenu)
        ensures
            *r == self.current_spec(),
    {
        &self.current
    }

    /// Replaces the menu state, as `SetState` does.
    pub fn set_current(&mut self, state: CurrentMenu)
        requires
            state.wf(),
        ensures
            final(self).wf(),
            final(self).current_spec() == state,
            final(self).system == old(self).system,
            final(self).serial == old(self).serial,
            final(self).hash_spec() == old(self).hash_spec(),
    {
        self.current = state;
    }

    /// Returns to the name screen, whatever was shown.
    pub fn reset(&mut self)
        ensures
            final(self).wf(),
            final(self).current_spec() == CurrentMenu::SystemName,
            final(self).system == old(self).system,
            final(self).serial == old(self).serial,
            final(self).hash_spec() == old(self).hash_spec(),
    {
        self.current = CurrentMenu::SystemName;
    }
}

/// What one redraw shows for a given menu state: the fixed screens map to
/// their plans, and the member screen maps to one cell per active slot,
/// with the partition geometry, the cell's member and its selection state.
pub open spec fn render_plan_matches(m: CurrentMenu, width: u32, height: u32, p: RenderPlan) -> bool {
    match m {
        CurrentMenu::SystemName => p == RenderPlan::Name,
        CurrentMenu::Version => p == RenderPlan::Version,
        CurrentMenu::Updating => p == RenderPlan::Updating,
        CurrentMenu::InvalidSystem => p == RenderPlan::Invalid,
        CurrentMenu::Member(c) => {
            &&& p matches RenderPlan::Cells(cells)
            &&& cells@.len() == c.len
            &&& forall|j: int| 0 <= j < c.len ==> cells@[j] == (CellPlan {
                rect: cell_rect_spec(width, height, c.len, j as u8),
                member_id: c.members@[j].id,
                select: c.spec_sel_for_cell(j as u8),
            })
        },
    }
}

} // verus!
