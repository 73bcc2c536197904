//! Local developer overlays and their controller-driven palette: which
//! overlays are on, which rows each player's info window shows, and the
//! menu that a controller navigates to change them.

use vstd::prelude::*;

verus! {

/// The number of rows in a player's info window.
pub const PLAYER_DEBUG_ROW_COUNT: usize = 6;

/// What a row of a player's info window shows.
#[derive(Clone, Copy, PartialEq, Eq, Structural, Debug)]
pub enum FighterDebugRowKind {
    Blank,
    CurrentState,
    Velocity,
    Input,
    Position,
    Facing,
}

/// The position of a row kind in the cycle.
pub open spec fn row_index(k: FighterDebugRowKind) -> int {
    match k {
        FighterDebugRowKind::Blank => 0,
        FighterDebugRowKind::CurrentState => 1,
        FighterDebugRowKind::Velocity => 2,
        FighterDebugRowKind::Input => 3,
        FighterDebugRowKind::Position => 4,
        FighterDebugRowKind::Facing => 5,
    }
}

/// The row kind at a position of the cycle.
pub open spec fn row_at(i: int) -> FighterDebugRowKind {
    if i == 0 {
        FighterDebugRowKind::Blank
    } else if i == 1 {
        FighterDebugRowKind::CurrentState
    } else if i == 2 {
        FighterDebugRowKind::Velocity
    } else if i == 3 {
        FighterDebugRowKind::Input
    } else if i == 4 {
        FighterDebugRowKind::Position
    } else {
        FighterDebugRowKind::Facing
    }
}

/// The row kind `direction` steps along the cycle, wrapping around.
pub open spec fn row_cycled(k: FighterDebugRowKind, direction: int) -> FighterDebugRowKind {
    row_at((row_index(k) + direction) % 6)
}

impl FighterDebugRowKind {
    pub fn label(self) -> (r: &'static str)
        ensures
            r@ == match self {
                FighterDebugRowKind::Blank => "None"@,
                FighterDebugRowKind::CurrentState => "Current state"@,
                FighterDebugRowKind::Velocity => "Velocity"@,
                FighterDebugRowKind::Input => "Input"@,
                FighterDebugRowKind::Position => "Position"@,
                FighterDebugRowKind::Facing => "Facing"@,
            },
    {
        match self {
            FighterDebugRowKind::Blank => "None",
            FighterDebugRowKind::CurrentState => "Current state",
            FighterDebugRowKind::Velocity => "Velocity",
            FighterDebugRowKind::Input => "Input",
            FighterDebugRowKind::Position => "Position",
            FighterDebugRowKind::Facing => "Facing",
        }
    }

    /// The kind `direction` steps along the cycle of kinds, wrapping around.
    pub fn cycle(self, direction: i8) -> (r: FighterDebugRowKind)
        requires
            -128 <= row_index(self) + direction <= 127,
        ensures
            r == row_cycled(self, direction as int),
    {
        let index: i8 = match self {
            FighterDebugRowKind::Blank => 0,
            FighterDebugRowKind::CurrentState => 1,
            FighterDebugRowKind::Velocity => 2,
            FighterDebugRowKind::Input => 3,
            FighterDebugRowKind::Position => 4,
            FighterDebugRowKind::Facing => 5,
        };
        let sum: i8 = index + direction;
        let mut m: i8 = sum % 6;
        if m < 0 {
            m = m + 6;
        }
        proof {
            assert(m as int == (index as int + direction as int) % 6);
        }
        if m == 0 {
            FighterDebugRowKind::Blank
        } else if m == 1 {
            FighterDebugRowKind::CurrentState
        } else if m == 2 {
            FighterDebugRowKind::Velocity
        } else if m == 3 {
            FighterDebugRowKind::Input
        } else if m == 4 {
            FighterDebugRowKind::Position
        } else {
            FighterDebugRowKind::Facing
        }
    }
}

/// How presentation samples fighter motion between simulation frames.
#[derive(Clone, Copy, PartialEq, Eq, Structural, Debug)]
pub enum PresentationMotionMode {
    Interpolation,
    Extrapolation,
}

impl Default for PresentationMotionMode {
    fn default() -> (r: PresentationMotionMode)
        ensures
            r == PresentationMotionMode::Interpolation,
    {
        PresentationMotionMode::Interpolation
    }
}

/// The other motion mode.
pub open spec fn motion_cycled(m: PresentationMotionMode) -> PresentationMotionMode {
    match m {
        PresentationMotionMode::Interpolation => PresentationMotionMode::Extrapolation,
        PresentationMotionMode::Extrapolation => PresentationMotionMode::Interpolation,
    }
}

impl PresentationMotionMode {
    pub fn label(self) -> (r: &'static str)
        ensures
            r@ == match self {
                PresentationMotionMode::Interpolation => "Interpolation"@,
                PresentationMotionMode::Extrapolation => "Extrapolation"@,
            },
    {
        match self {
            PresentationMotionMode::Interpolation => "Interpolation",
            PresentationMotionMode::Extrapolation => "Extrapolation",
        }
    }

    /// Switches to the other mode.
    pub fn cycle(&mut self)
        ensures
            *final(self) == motion_cycled(*old(self)),
    {
        *self = match self {
            PresentationMotionMode::Interpolation => PresentationMotionMode::Extrapolation,
            PresentationMotionMode::Extrapolation => PresentationMotionMode::Interpolation,
        };
    }
}

/// An overlay that the palette switches on and off.
#[derive(Clone, Copy, PartialEq, Eq, Structural, Debug)]
pub enum DebugFlag {
    Network,
    Ecb,
    StageCollision,
    AnimationBones,
    AttackHitboxes,
    Camera,
    DrawThroughGeometry,
}

/// A page of the palette's fixed menus.
#[derive(Clone, Copy, PartialEq, Eq, Structural, Debug)]
pub enum DebugMenuId {
    Root,
    Fighter,
    World,
    Diagnostics,
    Rendering,
}

/// An entry of a fixed menu.
#[derive(Clone, Copy, Debug)]
pub enum DebugMenuEntry {
    Toggle { label: &'static str, flag: DebugFlag },
    Submenu { label: &'static str, entries: DebugMenuId },
    PlayerSlots { label: &'static str },
    MotionSampling { label: &'static str },
}

/// The entries of each fixed menu.
pub open spec fn menu_entries(id: DebugMenuId) -> Seq<DebugMenuEntry> {
    match id {
        DebugMenuId::Root => seq![
            DebugMenuEntry::Submenu { label: "Fighter", entries: DebugMenuId::Fighter },
            DebugMenuEntry::Submenu { label: "World", entries: DebugMenuId::World },
            DebugMenuEntry::Submenu { label: "Diagnostics", entries: DebugMenuId::Diagnostics },
            DebugMenuEntry::Submenu { label: "Rendering", entries: DebugMenuId::Rendering },
        ],
        DebugMenuId::Fighter => seq![
            DebugMenuEntry::PlayerSlots { label: "Player windows" },
            DebugMenuEntry::Toggle { label: "ECB", flag: DebugFlag::Ecb },
            DebugMenuEntry::Toggle { label: "Animation bones", flag: DebugFlag::AnimationBones },
            DebugMenuEntry::Toggle { label: "Camera", flag: DebugFlag::Camera },
            DebugMenuEntry::Toggle { label: "Attack hitboxes", flag: DebugFlag::AttackHitboxes },
        ],
        DebugMenuId::World => seq![
            DebugMenuEntry::Toggle { label: "Stage collision", flag: DebugFlag::StageCollision },
        ],
        DebugMenuId::Diagnostics => seq![DebugMenuEntry::Toggle { label: "Network stats", flag: DebugFlag::Network }],
        DebugMenuId::Rendering => seq![
            DebugMenuEntry::MotionSampling { label: "Motion sampling" },
            DebugMenuEntry::Toggle { label: "Draw through geometry", flag: DebugFlag::DrawThroughGeometry },
        ],
    }
}

impl DebugMenuId {
    /// The number of entries of the menu.
    pub fn len(self) -> (r: usize)
        ensures
            r == menu_entries(self).len(),
    {
        match self {
            DebugMenuId::Root => 4,
            DebugMenuId::Fighter => 5,
            DebugMenuId::World => 1,
            DebugMenuId::Diagnostics => 1,
            DebugMenuId::Rendering => 2,
        }
    }

    /// Entry `index` of the menu.
    pub fn entry(self, index: usize) -> (r: DebugMenuEntry)
        requires
            index < menu_entries(self).len(),
        ensures
            r == menu_entries(self)[index as int],
    {
        match self {
            DebugMenuId::Root => if index == 0 {
                DebugMenuEntry::Submenu { label: "Fighter", entries: DebugMenuId::Fighter }
            } else if index == 1 {
                DebugMenuEntry::Submenu { label: "World", entries: DebugMenuId::World }
            } else if index == 2 {
                DebugMenuEntry::Submenu { label: "Diagnostics", entries: DebugMenuId::Diagnostics }
            } else {
                DebugMenuEntry::Submenu { label: "Rendering", entries: DebugMenuId::Rendering }
            },
            DebugMenuId::Fighter => if index == 0 {
                DebugMenuEntry::PlayerSlots { label: "Player windows" }
            } else if index == 1 {
                DebugMenuEntry::Toggle { label: "ECB", flag: DebugFlag::Ecb }
            } else if index == 2 {
                DebugMenuEntry::Toggle { label: "Animation bones", flag: DebugFlag::AnimationBones }
            } else if index == 3 {
                DebugMenuEntry::Toggle { label: "Camera", flag: DebugFlag::Camera }
            } else {
                DebugMenuEntry::Toggle { label: "Attack hitboxes", flag: DebugFlag::AttackHitboxes }
            },
            DebugMenuId::World => DebugMenuEntry::Toggle { label: "Stage collision", flag: DebugFlag::StageCollision },
            DebugMenuId::Diagnostics => DebugMenuEntry::Toggle { label: "Network stats", flag: DebugFlag::Network },
            DebugMenuId::Rendering => if index == 0 {
                DebugMenuEntry::MotionSampling { label: "Motion sampling" }
            } else {
                DebugMenuEntry::Toggle { label: "Draw through geometry", flag: DebugFlag::DrawThroughGeometry }
            },
        }
    }
}

/// A page of the palette.
#[derive(Clone, Copy, PartialEq, Eq, Structural, Debug)]
pub enum DebugMenuPage {
    Static(DebugMenuId),
    PlayerList,
    PlayerRows(usize),
}

/// The rows of a player's info window.
pub type PlayerRows = [FighterDebugRowKind; 6];

/// A fresh info window: every row shows nothing.
pub open spec fn empty_rows() -> PlayerRows {
    [
        FighterDebugRowKind::Blank,
        FighterDebugRowKind::Blank,
        FighterDebugRowKind::Blank,
        FighterDebugRowKind::Blank,
        FighterDebugRowKind::Blank,
        FighterDebugRowKind::Blank,
    ]
}

/// The developer overlays and the palette that controls them.
pub struct DebugSettings {
    pub menu_open: bool,
    controller: Option<u64>,
    pages: Vec<DebugMenuPage>,
    selections: Vec<usize>,
    /// The info window rows of each player that has one, by player handle.
    pub player_rows: Vec<(usize, PlayerRows)>,
    pub network: bool,
    pub ecb: bool,
    pub stage_collision: bool,
    pub animation_bones: bool,
    pub attack_hitboxes: bool,
    pub camera: bool,
    pub draw_through_geometry: bool,
    pub motion_sampling: PresentationMotionMode,
}

/// The palette's state as values.
pub struct DebugMenuModel {
    pub menu_open: bool,
    pub controller: Option<u64>,
    pub pages: Seq<DebugMenuPage>,
    pub selections: Seq<usize>,
    pub rows: Seq<(usize, PlayerRows)>,
    pub network: bool,
    pub ecb: bool,
    pub stage_collision: bool,
    pub animation_bones: bool,
    pub attack_hitboxes: bool,
    pub camera: bool,
    pub draw_through_geometry: bool,
    pub motion_sampling: PresentationMotionMode,
}

impl View for DebugSettings {
    type V = DebugMenuModel;

    closed spec fn view(&self) -> DebugMenuModel {
        DebugMenuModel {
            menu_open: self.menu_open,
            controller: self.controller,
            pages: self.pages@,
            selections: self.selections@,
            rows: self.player_rows@,
            network: self.network,
            ecb: self.ecb,
            stage_collision: self.stage_collision,
            animation_bones: self.animation_bones,
            attack_hitboxes: self.attack_hitboxes,
            camera: self.camera,
            draw_through_geometry: self.draw_through_geometry,
            motion_sampling: self.motion_sampling,
        }
    }
}

/// The palette is on a page, with one selection per open page.
pub open spec fn model_wf(m: DebugMenuModel) -> bool {
    &&& m.pages.len() >= 1 && m.pages.len() == m.selections.len()
    &&& rows_unique(m.rows)
}

/// The page shown.
pub open spec fn current_page(m: DebugMenuModel) -> DebugMenuPage {
    m.pages.last()
}

/// The selection on the page shown.
pub open spec fn current_selection(m: DebugMenuModel) -> usize {
    m.selections.last()
}

pub open spec fn with_selection(m: DebugMenuModel, v: usize) -> DebugMenuModel {
    DebugMenuModel { selections: m.selections.update(m.selections.len() - 1, v), ..m }
}

/// Back to the root page, its first entry selected.
pub open spec fn navigation_reset(m: DebugMenuModel) -> DebugMenuModel {
    DebugMenuModel { pages: m.pages.take(1), selections: seq![0usize], ..m }
}

pub open spec fn page_pushed(m: DebugMenuModel, p: DebugMenuPage) -> DebugMenuModel {
    DebugMenuModel { pages: m.pages.push(p), selections: m.selections.push(0), ..m }
}

/// Back one page, unless on the root page; and whether it went back.
pub open spec fn page_popped(m: DebugMenuModel) -> (DebugMenuModel, bool) {
    if m.pages.len() == 1 {
        (m, false)
    } else {
        (DebugMenuModel { pages: m.pages.drop_last(), selections: m.selections.drop_last(), ..m }, true)
    }
}

/// Whether an overlay is on.
pub open spec fn flag_of(m: DebugMenuModel, flag: DebugFlag) -> bool {
    match flag {
        DebugFlag::Network => m.network,
        DebugFlag::Ecb => m.ecb,
        DebugFlag::StageCollision => m.stage_collision,
        DebugFlag::AnimationBones => m.animation_bones,
        DebugFlag::AttackHitboxes => m.attack_hitboxes,
        DebugFlag::DrawThroughGeometry => m.draw_through_geometry,
        DebugFlag::Camera => m.camera,
    }
}

/// `m` with one overlay switched.
pub open spec fn flag_toggled(m: DebugMenuModel, flag: DebugFlag) -> DebugMenuModel {
    match flag {
        DebugFlag::Network => DebugMenuModel { network: !m.network, ..m },
        DebugFlag::Ecb => DebugMenuModel { ecb: !m.ecb, ..m },
        DebugFlag::StageCollision => DebugMenuModel { stage_collision: !m.stage_collision, ..m },
        DebugFlag::AnimationBones => DebugMenuModel { animation_bones: !m.animation_bones, ..m },
        DebugFlag::AttackHitboxes => DebugMenuModel { attack_hitboxes: !m.attack_hitboxes, ..m },
        DebugFlag::DrawThroughGeometry => DebugMenuModel { draw_through_geometry: !m.draw_through_geometry, ..m },
        DebugFlag::Camera => DebugMenuModel { camera: !m.camera, ..m },
    }
}

pub open spec fn motion_cycled_model(m: DebugMenuModel) -> DebugMenuModel {
    DebugMenuModel { motion_sampling: motion_cycled(m.motion_sampling), ..m }
}

/// `j` is the first entry of `rows` for `handle`.
pub open spec fn is_first_rows(rows: Seq<(usize, PlayerRows)>, handle: usize, j: int) -> bool {
    &&& 0 <= j < rows.len()
    &&& rows[j].0 == handle
    &&& forall|k: int| 0 <= k < j ==> (#[trigger] rows[k]).0 != handle
}

/// The position of the first entry for `handle`.
pub open spec fn rows_position(rows: Seq<(usize, PlayerRows)>, handle: usize) -> Option<int> {
    if exists|j: int| is_first_rows(rows, handle, j) {
        Some(choose|j: int| is_first_rows(rows, handle, j))
    } else {
        None
    }
}

/// `rows` with an entry for `handle`, a fresh one added at the end if it
/// had none.
pub open spec fn rows_ensured(rows: Seq<(usize, PlayerRows)>, handle: usize) -> Seq<(usize, PlayerRows)> {
    if rows_position(rows, handle) is Some {
        rows
    } else {
        rows.push((handle, empty_rows()))
    }
}

/// No player has two info windows.
pub open spec fn rows_unique(rows: Seq<(usize, PlayerRows)>) -> bool {
    crate::keyed::keys_unique(rows)
}

/// Opening or changing a player's info window (what `rows_mut` does) keeps
/// every player to one window, as a map by player handle would.
pub proof fn rows_stay_unique(rows: Seq<(usize, PlayerRows)>, handle: usize, changed: PlayerRows)
    requires
        rows_unique(rows),
    ensures
        rows_position(rows_ensured(rows, handle), handle) is Some,
        rows_position(rows_ensured(rows, handle), handle) matches Some(j) ==> rows_unique(
            rows_ensured(rows, handle).update(j, (handle, changed)),
        ),
{
    let e = rows_ensured(rows, handle);
    if rows_position(rows, handle) is None {
        let n = rows.len() as int;
        assert forall|k: int| 0 <= k < n implies (#[trigger] rows[k]).0 != handle by {
            if rows[k].0 == handle {
                lemma_first_rows_exists(rows, handle, k);
            }
        }
        assert(is_first_rows(e, handle, n)) by {
            assert forall|k: int| 0 <= k < n implies (#[trigger] e[k]).0 != handle by {
                assert(e[k] == rows[k]);
            }
        }
        let c = choose|j: int| is_first_rows(e, handle, j);
        if c < n {
            assert(e[c].0 != handle);
        }
        assert(rows_unique(e)) by {
            assert forall|a: int, b: int| 0 <= a < b < e.len() implies (#[trigger] e[a]).0 != (#[trigger] e[b]).0 by {
                if b == n {
                    assert(e[a] == rows[a]);
                } else {
                    assert(e[a] == rows[a] && e[b] == rows[b]);
                }
            }
        }
    }
    assert(rows_position(e, handle) is Some);
    let j = rows_position(e, handle)->0;
    assert(is_first_rows(e, handle, j));
    let u = e.update(j, (handle, changed));
    assert(rows_unique(u)) by {
        assert forall|a: int, b: int| 0 <= a < b < u.len() implies (#[trigger] u[a]).0 != (#[trigger] u[b]).0 by {
            assert(u[a].0 == e[a].0);
            assert(u[b].0 == e[b].0);
        }
    }
}

/// The rows array with entry `i` replaced.
pub open spec fn rows_array_set(a: PlayerRows, i: int, k: FighterDebugRowKind) -> PlayerRows {
    [
        if i == 0 { k } else { a[0] },
        if i == 1 { k } else { a[1] },
        if i == 2 { k } else { a[2] },
        if i == 3 { k } else { a[3] },
        if i == 4 { k } else { a[4] },
        if i == 5 { k } else { a[5] },
    ]
}

/// Row `i` of `handle`'s window cycled by `direction`, the window created
/// first if it did not exist.
pub open spec fn row_cycled_in(
    rows: Seq<(usize, PlayerRows)>,
    handle: usize,
    i: int,
    direction: int,
) -> Seq<(usize, PlayerRows)> {
    let r = rows_ensured(rows, handle);
    let j = rows_position(r, handle)->0;
    r.update(j, (handle, rows_array_set(r[j].1, i, row_cycled(r[j].1[i], direction))))
}

/// The number of entries of a page.
pub open spec fn page_len(page: DebugMenuPage, handles: Seq<usize>) -> int {
    match page {
        DebugMenuPage::Static(id) => menu_entries(id).len() as int,
        DebugMenuPage::PlayerList => handles.len() as int,
        DebugMenuPage::PlayerRows(_) => 6,
    }
}

/// `h` lists the player handles of `players` in increasing order, each once.
pub open spec fn is_handle_list(h: Seq<usize>, players: Seq<usize>) -> bool {
    &&& forall|i: int, j: int| 0 <= i < j < h.len() ==> h[i] < h[j]
    &&& forall|x: usize| h.contains(x) <==> players.contains(x)
}

/// The player handles, sorted, each once.
pub open spec fn sorted_handles(players: Seq<usize>) -> Seq<usize> {
    choose|h: Seq<usize>| is_handle_list(h, players)
}

/// What the palette reads of one gamepad this frame.
#[derive(Clone, Copy, PartialEq, Eq, Structural, Debug)]
pub struct PaletteGamepad {
    pub entity: u64,
    pub start_just_pressed: bool,
    pub dpad_up_pressed: bool,
    pub dpad_up_just_pressed: bool,
    pub dpad_down_just_pressed: bool,
    pub dpad_left_just_pressed: bool,
    pub dpad_right_just_pressed: bool,
    pub south_just_pressed: bool,
    pub west_just_pressed: bool,
}

/// What the palette reads this frame.
#[derive(Clone, Debug)]
pub struct PaletteInput {
    /// The key that switches drawing through geometry was just pressed.
    pub draw_through_key_just_pressed: bool,
    pub gamepads: Vec<PaletteGamepad>,
}

/// The first gamepad that opens the menu: Start pressed with D-pad up held.
pub open spec fn opening_pad(pads: Seq<PaletteGamepad>) -> Option<PaletteGamepad> {
    if exists|j: int| 0 <= j < pads.len() && (#[trigger] pads[j]).start_just_pressed && pads[j].dpad_up_pressed {
        let j = choose|j: int|
            0 <= j < pads.len() && (#[trigger] pads[j]).start_just_pressed && pads[j].dpad_up_pressed && forall|k: int|
                0 <= k < j ==> !((#[trigger] pads[k]).start_just_pressed && pads[k].dpad_up_pressed);
        Some(pads[j])
    } else {
        None
    }
}

/// The first gamepad that is the given entity.
pub open spec fn pad_of(pads: Seq<PaletteGamepad>, entity: u64) -> Option<PaletteGamepad> {
    if exists|j: int| 0 <= j < pads.len() && (#[trigger] pads[j]).entity == entity {
        let j = choose|j: int|
            0 <= j < pads.len() && (#[trigger] pads[j]).entity == entity && forall|k: int|
                0 <= k < j ==> (#[trigger] pads[k]).entity != entity;
        Some(pads[j])
    } else {
        None
    }
}

/// The selection brought back on a page of `len` entries, then moved up or
/// down, wrapping around.
pub open spec fn selection_moved(m0: DebugMenuModel, pad: PaletteGamepad, len: int) -> DebugMenuModel {
    let m1 = if len != 0 && current_selection(m0) >= len {
        with_selection(m0, 0)
    } else {
        m0
    };
    let m2 = if pad.dpad_up_just_pressed && len != 0 {
        with_selection(
            m1,
            if current_selection(m1) == 0 {
                (len - 1) as usize
            } else {
                (current_selection(m1) - 1) as usize
            },
        )
    } else {
        m1
    };
    if pad.dpad_down_just_pressed && len != 0 {
        with_selection(m2, ((current_selection(m2) + 1) % len) as usize)
    } else {
        m2
    }
}

/// Left/right: on a player's rows, the selected row cycles; on the motion
/// sampling entry, the mode switches.
pub open spec fn sideways_applied(m3: DebugMenuModel, page: DebugMenuPage, pad: PaletteGamepad) -> DebugMenuModel {
    let sideways = pad.dpad_left_just_pressed || pad.dpad_right_just_pressed;
    match page {
        DebugMenuPage::PlayerRows(handle) => if sideways {
            DebugMenuModel {
                rows: row_cycled_in(
                    m3.rows,
                    handle,
                    current_selection(m3) as int,
                    if pad.dpad_left_just_pressed { -1 } else { 1 },
                ),
                ..m3
            }
        } else {
            m3
        },
        DebugMenuPage::Static(id) => if current_selection(m3) < menu_entries(id).len() && menu_entries(
            id,
        )[current_selection(m3) as int] is MotionSampling && sideways {
            motion_cycled_model(m3)
        } else {
            m3
        },
        DebugMenuPage::PlayerList => m3,
    }
}

/// A: the selected entry acts. A toggle switches its overlay, a submenu or
/// the player list opens, the motion sampling entry switches the mode, and
/// a player of the list gets its rows page (and its window, if new).
pub open spec fn accept_applied(
    m5: DebugMenuModel,
    page: DebugMenuPage,
    pad: PaletteGamepad,
    len: int,
    handles: Seq<usize>,
) -> DebugMenuModel {
    if pad.south_just_pressed {
        match page {
            DebugMenuPage::Static(id) => if len != 0 {
                match menu_entries(id)[current_selection(m5) as int] {
                    DebugMenuEntry::Toggle { flag, .. } => flag_toggled(m5, flag),
                    DebugMenuEntry::Submenu { entries, .. } => page_pushed(m5, DebugMenuPage::Static(entries)),
                    DebugMenuEntry::PlayerSlots { .. } => page_pushed(m5, DebugMenuPage::PlayerList),
                    DebugMenuEntry::MotionSampling { .. } => motion_cycled_model(m5),
                }
            } else {
                m5
            },
            DebugMenuPage::PlayerList => if len != 0 {
                let handle = handles[current_selection(m5) as int];
                page_pushed(
                    DebugMenuModel { rows: rows_ensured(m5.rows, handle), ..m5 },
                    DebugMenuPage::PlayerRows(handle),
                )
            } else {
                m5
            },
            DebugMenuPage::PlayerRows(_) => m5,
        }
    } else {
        m5
    }
}

/// B: back one page, or, on the root page, the menu closes.
pub open spec fn back_applied(m6: DebugMenuModel, pad: PaletteGamepad) -> DebugMenuModel {
    if pad.west_just_pressed {
        let (m7, went_back) = page_popped(m6);
        if went_back {
            m7
        } else {
            DebugMenuModel { menu_open: false, controller: None, ..m7 }
        }
    } else {
        m6
    }
}

/// The palette after navigating with an open menu's controller: the
/// selection is brought back on the page and moved; left/right act on a
/// player's rows or the motion sampling entry; A acts on the selected
/// entry; B goes back, closing the menu on the root page.
pub open spec fn palette_navigated(m0: DebugMenuModel, pad: PaletteGamepad, handles: Seq<usize>) -> DebugMenuModel {
    let page = current_page(m0);
    let len = page_len(page, handles);
    back_applied(
        accept_applied(sideways_applied(selection_moved(m0, pad, len), page, pad), page, pad, len, handles),
        pad,
    )
}

/// A closed palette opens for the first gamepad that presses Start with
/// D-pad up held, on the root page.
pub open spec fn palette_opened(m0: DebugMenuModel, input: PaletteInput) -> DebugMenuModel {
    match opening_pad(input.gamepads@) {
        Some(pad) => DebugMenuModel { menu_open: true, controller: Some(pad.entity), ..navigation_reset(m0) },
        None => m0,
    }
}

/// An open palette follows its controller, and closes without one.
pub open spec fn palette_followed(m0: DebugMenuModel, input: PaletteInput, players: Seq<usize>) -> DebugMenuModel {
    match m0.controller {
        None => DebugMenuModel { menu_open: false, ..m0 },
        Some(entity) => match pad_of(input.gamepads@, entity) {
            None => DebugMenuModel { menu_open: false, controller: None, ..m0 },
            Some(pad) => palette_navigated(m0, pad, sorted_handles(players)),
        },
    }
}

/// The palette after one frame of input.
pub open spec fn palette_step(m: DebugMenuModel, input: PaletteInput, players: Seq<usize>) -> DebugMenuModel {
    let m0 = if input.draw_through_key_just_pressed {
        flag_toggled(m, DebugFlag::DrawThroughGeometry)
    } else {
        m
    };
    if !m0.menu_open {
        palette_opened(m0, input)
    } else {
        palette_followed(m0, input, players)
    }
}


impl DebugSettings {
    /// The palette is on a page, with one selection per open page.
    pub open spec fn wf(&self) -> bool {
        model_wf(self@)
    }

    /// The controller that opened the menu.
    pub fn controller(&self) -> (r: Option<u64>)
        ensures
            r == self@.controller,
    {
        self.controller
    }

    /// Closed, on the root page, every overlay off, no info window.
    pub fn new() -> (r: DebugSettings)
        ensures
            r.wf(),
            r@ == (DebugMenuModel {
                menu_open: false,
                controller: None,
                pages: seq![DebugMenuPage::Static(DebugMenuId::Root)],
                selections: seq![0usize],
                rows: Seq::empty(),
                network: false,
                ecb: false,
                stage_collision: false,
                animation_bones: false,
                attack_hitboxes: false,
                camera: false,
                draw_through_geometry: false,
                motion_sampling: PresentationMotionMode::Interpolation,
            }),
    {
        let mut pages: Vec<DebugMenuPage> = Vec::new();
        pages.push(DebugMenuPage::Static(DebugMenuId::Root));
        let mut selections: Vec<usize> = Vec::new();
        selections.push(0);
        let r = DebugSettings {
            menu_open: false,
            controller: None,
            pages,
            selections,
            player_rows: Vec::new(),
            network: false,
            ecb: false,
            stage_collision: false,
            animation_bones: false,
            attack_hitboxes: false,
            camera: false,
            draw_through_geometry: false,
            motion_sampling: PresentationMotionMode::Interpolation,
        };
        assert(r@.pages =~= seq![DebugMenuPage::Static(DebugMenuId::Root)]);
        assert(r@.selections =~= seq![0usize]);
        assert(r@.rows =~= Seq::empty());
        r
    }

    /// The info window rows of a player, if it has a window.
    pub fn player_rows(&self, handle: usize) -> (r: Option<&PlayerRows>)
        ensures
            match r {
                Some(a) => rows_position(self@.rows, handle) matches Some(j) && self@.rows[j].1 == *a,
                None => rows_position(self@.rows, handle) is None,
            },
    {
        match self.find_rows(handle) {
            Some(j) => Some(&self.player_rows[j].1),
            None => None,
        }
    }

    fn find_rows(&self, handle: usize) -> (r: Option<usize>)
        ensures
            match r {
                Some(j) => rows_position(self@.rows, handle) == Some(j as int),
                None => rows_position(self@.rows, handle) is None,
            },
    {
        let mut i: usize = 0;
        while i < self.player_rows.len()
            invariant
                i <= self.player_rows@.len(),
                forall|k: int| 0 <= k < i ==> (#[trigger] self.player_rows@[k]).0 != handle,
            decreases self.player_rows@.len() - i,
        {
            if self.player_rows[i].0 == handle {
                proof {
                    assert(is_first_rows(self@.rows, handle, i as int));
                    let c = choose|j: int| is_first_rows(self@.rows, handle, j);
                    if c < i {
                        assert(self.player_rows@[c].0 != handle);
                    } else if c > i {
                        assert(self.player_rows@[i as int].0 != handle);
                    }
                }
                return Some(i);
            }
            i = i + 1;
        }
        proof {
            assert forall|j: int| !is_first_rows(self@.rows, handle, j) by {
                if 0 <= j < self.player_rows@.len() {
                    assert(self.player_rows@[j].0 != handle);
                }
            }
        }
        None
    }

    /// Back to the root page, its first entry selected.
    pub fn reset_navigation(&mut self)
        requires
            old(self).wf(),
        ensures
            final(self).wf(),
            final(self)@ == navigation_reset(old(self)@),
    {
        self.pages.truncate(1);
        self.selections.truncate(1);
        self.selections.set(0, 0);
        assert(self@.selections =~= seq![0usize]);
    }

    /// The page shown.
    pub fn page(&self) -> (r: DebugMenuPage)
        requires
            self.wf(),
        ensures
            r == current_page(self@),
    {
        self.pages[self.pages.len() - 1]
    }

    /// The selection on the page shown.
    pub fn selected(&self) -> (r: usize)
        requires
            self.wf(),
        ensures
            r == current_selection(self@),
    {
        self.selections[self.selections.len() - 1]
    }

    /// The selection on the page shown, to change it.
    pub fn selected_mut(&mut self) -> (r: &mut usize)
        requires
            old(self).wf(),
        ensures
            *r == current_selection(old(self)@),
            final(self).wf(),
            final(self)@ == with_selection(old(self)@, *final(r)),
    {
        let n = self.selections.len();
        &mut self.selections[n - 1]
    }

    /// Opens a page, its first entry selected.
    pub fn push_page(&mut self, page: DebugMenuPage)
        requires
            old(self).wf(),
        ensures
            final(self).wf(),
            final(self)@ == page_pushed(old(self)@, page),
    {
        self.pages.push(page);
        self.selections.push(0);
    }

    /// Goes back one page, unless on the root page; returns whether it went
    /// back.
    pub fn pop_page(&mut self) -> (r: bool)
        requires
            old(self).wf(),
        ensures
            final(self).wf(),
            (final(self)@, r) == page_popped(old(self)@),
    {
        if self.pages.len() == 1 {
            return false;
        }
        self.pages.pop();
        self.selections.pop();
        true
    }

    /// Whether an overlay is on.
    pub fn flag(&self, flag: DebugFlag) -> (r: bool)
        ensures
            r == flag_of(self@, flag),
    {
        match flag {
            DebugFlag::Network => self.network,
            DebugFlag::Ecb => self.ecb,
            DebugFlag::StageCollision => self.stage_collision,
            DebugFlag::AnimationBones => self.animation_bones,
            DebugFlag::AttackHitboxes => self.attack_hitboxes,
            DebugFlag::DrawThroughGeometry => self.draw_through_geometry,
            DebugFlag::Camera => self.camera,
        }
    }

    /// Switches an overlay.
    pub fn toggle_flag(&mut self, flag: DebugFlag)
        ensures
            final(self)@ == flag_toggled(old(self)@, flag),
            final(self).wf() == old(self).wf(),
    {
        match flag {
            DebugFlag::Network => self.network = !self.network,
            DebugFlag::Ecb => self.ecb = !self.ecb,
            DebugFlag::StageCollision => self.stage_collision = !self.stage_collision,
            DebugFlag::AnimationBones => self.animation_bones = !self.animation_bones,
            DebugFlag::AttackHitboxes => self.attack_hitboxes = !self.attack_hitboxes,
            DebugFlag::DrawThroughGeometry => self.draw_through_geometry = !self.draw_through_geometry,
            DebugFlag::Camera => self.camera = !self.camera,
        }
    }

    /// Switches the motion sampling mode.
    pub fn cycle_motion_sampling(&mut self)
        ensures
            final(self)@ == motion_cycled_model(old(self)@),
            final(self).wf() == old(self).wf(),
    {
        self.motion_sampling.cycle();
    }

    /// The info window rows of a player, created empty if it had none.
    pub fn rows_mut(&mut self, handle: usize) -> (r: &mut PlayerRows)
        ensures
            rows_position(rows_ensured(old(self)@.rows, handle), handle) matches Some(j) && {
                &&& *r == rows_ensured(old(self)@.rows, handle)[j].1
                &&& final(self)@ == (DebugMenuModel {
                    rows: rows_ensured(old(self)@.rows, handle).update(j, (handle, *final(r))),
                    ..old(self)@
                })
            },
            final(self).wf() == old(self).wf(),
    {
        let j = match self.find_rows(handle) {
            Some(j) => j,
            None => {
                let ghost before = self.player_rows@;
                self.player_rows.push((handle, [FighterDebugRowKind::Blank; 6]));
                proof {
                    let n = before.len() as int;
                    assert(self.player_rows@[n].1 =~= empty_rows());
                    assert(self.player_rows@ =~= before.push((handle, empty_rows())));
                    assert(is_first_rows(self.player_rows@, handle, n)) by {
                        assert forall|k: int| 0 <= k < n implies (#[trigger] self.player_rows@[k]).0 != handle by {
                            if self.player_rows@[k].0 == handle {
                                assert(before[k].0 == handle);
                                lemma_first_rows_exists(before, handle, k);
                            }
                        }
                    }
                    let c = choose|j: int| is_first_rows(self.player_rows@, handle, j);
                    if c < n {
                        assert(self.player_rows@[c].0 != handle);
                    }
                }
                self.player_rows.len() - 1
            },
        };
        proof {
            let ghost rows0 = old(self)@.rows;
            assert forall|c: PlayerRows|
                #[trigger] rows_unique(rows_ensured(rows0, handle).update(j as int, (handle, c))) == rows_unique(
                    rows0,
                ) by {
                lemma_rows_keys_kept(rows0, handle, c);
            }
        }
        &mut self.player_rows[j].1
    }
}

/// Opening or changing a player's info window keeps the handles as they
/// were: unique before exactly when unique after.
proof fn lemma_rows_keys_kept(rows: Seq<(usize, PlayerRows)>, handle: usize, changed: PlayerRows)
    ensures
        rows_position(rows_ensured(rows, handle), handle) matches Some(j) ==> rows_unique(
            rows_ensured(rows, handle).update(j, (handle, changed)),
        ) == rows_unique(rows),
{
    let e = rows_ensured(rows, handle);
    if rows_unique(rows) {
        rows_stay_unique(rows, handle, changed);
    } else {
        if rows_position(e, handle) is Some {
            let j = rows_position(e, handle)->0;
            let u = e.update(j, (handle, changed));
            assert(is_first_rows(e, handle, j));
            let (a, b) = choose|a: int, b: int|
                0 <= a < b < rows.len() && (#[trigger] rows[a]).0 == (#[trigger] rows[b]).0;
            assert(e[a] == rows[a] && e[b] == rows[b]) by {
                if rows_position(rows, handle) is None {
                    assert(e == rows.push((handle, empty_rows())));
                }
            }
            assert(u[a].0 == e[a].0 && u[b].0 == e[b].0);
            assert(!rows_unique(u));
        }
    }
}

proof fn lemma_first_rows_exists(rows: Seq<(usize, PlayerRows)>, handle: usize, j: int)
    requires
        0 <= j < rows.len(),
        rows[j].0 == handle,
    ensures
        rows_position(rows, handle) is Some,
    decreases j,
{
    if forall|k: int| 0 <= k < j ==> (#[trigger] rows[k]).0 != handle {
        assert(is_first_rows(rows, handle, j));
    } else {
        let k = choose|k: int| 0 <= k < j && (#[trigger] rows[k]).0 == handle;
        lemma_first_rows_exists(rows, handle, k);
    }
}

impl Default for DebugSettings {
    fn default() -> (r: DebugSettings)
        ensures
            r.wf(),
            r@ == (DebugMenuModel {
                menu_open: false,
                controller: None,
                pages: seq![DebugMenuPage::Static(DebugMenuId::Root)],
                selections: seq![0usize],
                rows: Seq::empty(),
                network: false,
                ecb: false,
                stage_collision: false,
                animation_bones: false,
                attack_hitboxes: false,
                camera: false,
                draw_through_geometry: false,
                motion_sampling: PresentationMotionMode::Interpolation,
            }),
    {
        DebugSettings::new()
    }
}


/// Two increasing lists of the same values are the same list.
pub proof fn lemma_handle_list_unique(a: Seq<usize>, b: Seq<usize>)
    requires
        forall|i: int, j: int| 0 <= i < j < a.len() ==> a[i] < a[j],
        forall|i: int, j: int| 0 <= i < j < b.len() ==> b[i] < b[j],
        forall|x: usize| a.contains(x) <==> b.contains(x),
    ensures
        a == b,
    decreases a.len(),
{
    if a.len() == 0 {
        if b.len() > 0 {
            assert(b.contains(b[0]));
        }
        assert(a =~= b);
    } else {
        assert(a.contains(a[0]));
        assert(b.contains(a[0]));
        let jb = choose|j: int| 0 <= j < b.len() && b[j] == a[0];
        assert(b.contains(b[0]));
        assert(a.contains(b[0]));
        let ja = choose|j: int| 0 <= j < a.len() && a[j] == b[0];
        if jb > 0 {
            assert(b[0] < b[jb]);
        }
        if ja > 0 {
            assert(a[0] < a[ja]);
        }
        assert(a[0] == b[0]);
        let a1 = a.drop_first();
        let b1 = b.drop_first();
        assert forall|x: usize| a1.contains(x) <==> b1.contains(x) by {
            if a1.contains(x) {
                let k = choose|k: int| 0 <= k < a1.len() && a1[k] == x;
                assert(a[k + 1] == x);
                assert(a[0] < a[k + 1]);
                assert(a.contains(x));
                assert(b.contains(x));
                let m = choose|m: int| 0 <= m < b.len() && b[m] == x;
                assert(m != 0);
                assert(b1[m - 1] == x);
            }
            if b1.contains(x) {
                let k = choose|k: int| 0 <= k < b1.len() && b1[k] == x;
                assert(b[k + 1] == x);
                assert(b[0] < b[k + 1]);
                assert(b.contains(x));
                assert(a.contains(x));
                let m = choose|m: int| 0 <= m < a.len() && a[m] == x;
                assert(m != 0);
                assert(a1[m - 1] == x);
            }
        }
        assert forall|i: int, j: int| 0 <= i < j < a1.len() implies a1[i] < a1[j] by {
            assert(a[i + 1] < a[j + 1]);
        }
        assert forall|i: int, j: int| 0 <= i < j < b1.len() implies b1[i] < b1[j] by {
            assert(b[i + 1] < b[j + 1]);
        }
        lemma_handle_list_unique(a1, b1);
        assert(a =~= b) by {
            assert forall|i: int| 0 <= i < a.len() implies a[i] == b[i] by {
                if i > 0 {
                    assert(a[i] == a1[i - 1]);
                    assert(b[i] == b1[i - 1]);
                }
            }
        }
    }
}

/// The player handles in increasing order, each once.
pub fn player_handles(players: &Vec<usize>) -> (r: Vec<usize>)
    ensures
        is_handle_list(r@, players@),
        r@ == sorted_handles(players@),
{
    let mut out: Vec<usize> = Vec::new();
    let mut k: usize = 0;
    while k < players.len()
        invariant
            k <= players@.len(),
            forall|i: int, j: int| 0 <= i < j < out@.len() ==> out@[i] < out@[j],
            forall|x: usize| out@.contains(x) <==> players@.subrange(0, k as int).contains(x),
        decreases players@.len() - k,
    {
        let p = players[k];
        let mut i: usize = 0;
        while i < out.len() && out[i] < p
            invariant
                i <= out@.len(),
                forall|m: int| 0 <= m < i ==> out@[m] < p,
            decreases out@.len() - i,
        {
            i = i + 1;
        }
        let ghost before = out@;
        if i < out.len() && out[i] == p {
        } else {
            out.insert(i, p);
            proof {
                assert forall|a: int, b: int| 0 <= a < b < out@.len() implies out@[a] < out@[b] by {
                    if b < i {
                        assert(out@[a] == before[a] && out@[b] == before[b]);
                    } else if b == i {
                        assert(out@[a] == before[a]);
                    } else if a < i {
                        assert(out@[b] == before[b - 1]);
                        assert(before[b - 1] > p) by {
                            assert(before[i as int] >= p);
                            if b - 1 > i {
                                assert(before[i as int] < before[b - 1]);
                            }
                            assert(before[i as int] != p);
                        }
                    } else if a == i {
                        assert(out@[b] == before[b - 1]);
                        assert(before[i as int] >= p);
                        assert(before[i as int] != p);
                        if b - 1 > i {
                            assert(before[i as int] < before[b - 1]);
                        }
                    } else {
                        assert(out@[a] == before[a - 1] && out@[b] == before[b - 1]);
                    }
                }
            }
        }
        proof {
            let pre = players@.subrange(0, k as int);
            let post = players@.subrange(0, k + 1);
            assert(post =~= pre.push(p));
            assert forall|x: usize| out@.contains(x) <==> post.contains(x) by {
                if out@.contains(x) {
                    let m = choose|m: int| 0 <= m < out@.len() && out@[m] == x;
                    if x != p {
                        if before.len() < out@.len() {
                            if m < i {
                                assert(before[m] == x);
                            } else {
                                assert(before[m - 1] == x);
                            }
                        }
                        assert(before.contains(x));
                        assert(pre.contains(x));
                        let q = choose|q: int| 0 <= q < pre.len() && pre[q] == x;
                        assert(post[q] == x);
                    } else {
                        assert(post[k as int] == p);
                    }
                }
                if post.contains(x) {
                    let q = choose|q: int| 0 <= q < post.len() && post[q] == x;
                    if q < k {
                        assert(pre[q] == x);
                        assert(before.contains(x));
                        let m = choose|m: int| 0 <= m < before.len() && before[m] == x;
                        if before.len() < out@.len() {
                            if m < i {
                                assert(out@[m] == x);
                            } else {
                                assert(out@[m + 1] == x);
                            }
                        } else {
                            assert(out@[m] == x);
                        }
                    } else {
                        assert(x == p);
                        if before.len() < out@.len() {
                            assert(out@[i as int] == p);
                        } else {
                            assert(out@[i as int] == p);
                        }
                    }
                }
            }
        }
        k = k + 1;
    }
    proof {
        assert(players@.subrange(0, k as int) =~= players@);
        let h = sorted_handles(players@);
        assert(is_handle_list(out@, players@));
        lemma_handle_list_unique(h, out@);
    }
    out
}

fn page_length(page: DebugMenuPage, handles: &Vec<usize>) -> (r: usize)
    ensures
        r == page_len(page, handles@),
{
    match page {
        DebugMenuPage::Static(id) => id.len(),
        DebugMenuPage::PlayerList => handles.len(),
        DebugMenuPage::PlayerRows(_) => PLAYER_DEBUG_ROW_COUNT,
    }
}

fn rows_with(a: PlayerRows, i: usize, k: FighterDebugRowKind) -> (r: PlayerRows)
    ensures
        r == rows_array_set(a, i as int, k),
{
    [
        if i == 0 { k } else { a[0] },
        if i == 1 { k } else { a[1] },
        if i == 2 { k } else { a[2] },
        if i == 3 { k } else { a[3] },
        if i == 4 { k } else { a[4] },
        if i == 5 { k } else { a[5] },
    ]
}


fn find_opening_pad(pads: &Vec<PaletteGamepad>) -> (r: Option<PaletteGamepad>)
    ensures
        r == opening_pad(pads@),
{
    let mut i: usize = 0;
    while i < pads.len()
        invariant
            i <= pads@.len(),
            forall|k: int| 0 <= k < i ==> !((#[trigger] pads@[k]).start_just_pressed && pads@[k].dpad_up_pressed),
        decreases pads@.len() - i,
    {
        let pad = pads[i];
        if pad.start_just_pressed && pad.dpad_up_pressed {
            proof {
                let c = choose|j: int|
                    0 <= j < pads@.len() && (#[trigger] pads@[j]).start_just_pressed && pads@[j].dpad_up_pressed
                        && forall|k: int| 0 <= k < j ==> !((#[trigger] pads@[k]).start_just_pressed && pads@[k].dpad_up_pressed);
                assert(0 <= i < pads@.len() && pads@[i as int].start_just_pressed && pads@[i as int].dpad_up_pressed
                    && forall|k: int| 0 <= k < i ==> !((#[trigger] pads@[k]).start_just_pressed && pads@[k].dpad_up_pressed));
                if c < i {
                    assert(!(pads@[c].start_just_pressed && pads@[c].dpad_up_pressed));
                } else if c > i {
                    assert(!(pads@[i as int].start_just_pressed && pads@[i as int].dpad_up_pressed));
                }
            }
            return Some(pad);
        }
        i = i + 1;
    }
    None
}

fn find_pad(pads: &Vec<PaletteGamepad>, entity: u64) -> (r: Option<PaletteGamepad>)
    ensures
        r == pad_of(pads@, entity),
{
    let mut i: usize = 0;
    while i < pads.len()
        invariant
            i <= pads@.len(),
            forall|k: int| 0 <= k < i ==> (#[trigger] pads@[k]).entity != entity,
        decreases pads@.len() - i,
    {
        let pad = pads[i];
        if pad.entity == entity {
            proof {
                let c = choose|j: int|
                    0 <= j < pads@.len() && (#[trigger] pads@[j]).entity == entity && forall|k: int|
                        0 <= k < j ==> (#[trigger] pads@[k]).entity != entity;
                assert(0 <= i < pads@.len() && pads@[i as int].entity == entity && forall|k: int|
                    0 <= k < i ==> (#[trigger] pads@[k]).entity != entity);
                if c < i {
                    assert(pads@[c].entity != entity);
                } else if c > i {
                    assert(pads@[i as int].entity != entity);
                }
            }
            return Some(pad);
        }
        i = i + 1;
    }
    None
}

fn move_selection(settings: &mut DebugSettings, pad: &PaletteGamepad, len: usize)
    requires
        old(settings).wf(),
    ensures
        final(settings).wf(),
        final(settings)@ == selection_moved(old(settings)@, *pad, len as int),
{
    if len != 0 && settings.selected() >= len {
        *settings.selected_mut() = 0;
    }
    if pad.dpad_up_just_pressed && len != 0 {
        let selected = settings.selected_mut();
        *selected = if *selected == 0 {
            len - 1
        } else {
            *selected - 1
        };
    }
    if pad.dpad_down_just_pressed && len != 0 {
        let selected = settings.selected_mut();
        *selected = (*selected + 1) % len;
    }
}

fn apply_sideways(settings: &mut DebugSettings, page: DebugMenuPage, pad: &PaletteGamepad)
    requires
        old(settings).wf(),
        page matches DebugMenuPage::PlayerRows(_) ==> current_selection(old(settings)@) < 6,
    ensures
        final(settings).wf(),
        final(settings)@ == sideways_applied(old(settings)@, page, *pad),
{
    match page {
        DebugMenuPage::PlayerRows(handle) => {
            if pad.dpad_left_just_pressed || pad.dpad_right_just_pressed {
                let direction: i8 = if pad.dpad_left_just_pressed {
                    -1
                } else {
                    1
                };
                let selected = settings.selected();
                let rows = settings.rows_mut(handle);
                let cycled = rows[selected].cycle(direction);
                *rows = rows_with(*rows, selected, cycled);
            }
        },
        DebugMenuPage::Static(id) => {
            let selected = settings.selected();
            if selected < id.len() && (pad.dpad_left_just_pressed || pad.dpad_right_just_pressed) {
                if let DebugMenuEntry::MotionSampling { .. } = id.entry(selected) {
                    settings.cycle_motion_sampling();
                }
            }
        },
        DebugMenuPage::PlayerList => {},
    }
}

fn apply_accept(settings: &mut DebugSettings, page: DebugMenuPage, pad: &PaletteGamepad, len: usize, handles: &Vec<usize>)
    requires
        old(settings).wf(),
        len == page_len(page, handles@),
        len != 0 ==> current_selection(old(settings)@) < len,
    ensures
        final(settings).wf(),
        final(settings)@ == accept_applied(old(settings)@, page, *pad, len as int, handles@),
{
    if pad.south_just_pressed {
        match page {
            DebugMenuPage::Static(id) => if len != 0 {
                match id.entry(settings.selected()) {
                    DebugMenuEntry::Toggle { flag, .. } => settings.toggle_flag(flag),
                    DebugMenuEntry::Submenu { entries, .. } => settings.push_page(DebugMenuPage::Static(entries)),
                    DebugMenuEntry::PlayerSlots { .. } => settings.push_page(DebugMenuPage::PlayerList),
                    DebugMenuEntry::MotionSampling { .. } => settings.cycle_motion_sampling(),
                }
            },
            DebugMenuPage::PlayerList => if len != 0 {
                let handle = handles[settings.selected()];
                let ghost m = settings@;
                settings.rows_mut(handle);
                proof {
                    let e = rows_ensured(m.rows, handle);
                    let j = rows_position(e, handle)->0;
                    assert(e[j].0 == handle);
                    assert(settings@.rows =~= e);
                }
                settings.push_page(DebugMenuPage::PlayerRows(handle));
            },
            DebugMenuPage::PlayerRows(_) => {},
        }
    }
}

fn apply_back(settings: &mut DebugSettings, pad: &PaletteGamepad)
    requires
        old(settings).wf(),
    ensures
        final(settings).wf(),
        final(settings)@ == back_applied(old(settings)@, *pad),
{
    if pad.west_just_pressed && !settings.pop_page() {
        settings.menu_open = false;
        settings.controller = None;
    }
}

/// Navigation with an open menu's controller.
fn navigate_palette(settings: &mut DebugSettings, pad: &PaletteGamepad, handles: &Vec<usize>)
    requires
        old(settings).wf(),
    ensures
        final(settings).wf(),
        final(settings)@ == palette_navigated(old(settings)@, *pad, handles@),
{
    let page = settings.page();
    let len = page_length(page, handles);
    move_selection(settings, pad, len);
    apply_sideways(settings, page, pad);
    apply_accept(settings, page, pad, len, handles);
    apply_back(settings, pad);
}

fn open_palette(settings: &mut DebugSettings, input: &PaletteInput)
    requires
        old(settings).wf(),
    ensures
        final(settings).wf(),
        final(settings)@ == palette_opened(old(settings)@, *input),
{
    if let Some(pad) = find_opening_pad(&input.gamepads) {
        settings.menu_open = true;
        settings.controller = Some(pad.entity);
        settings.reset_navigation();
    }
}

fn follow_controller(settings: &mut DebugSettings, input: &PaletteInput, players: &Vec<usize>)
    requires
        old(settings).wf(),
    ensures
        final(settings).wf(),
        final(settings)@ == palette_followed(old(settings)@, *input, players@),
{
    let controller = match settings.controller {
        Some(c) => c,
        None => {
            settings.menu_open = false;
            return;
        },
    };
    let pad = match find_pad(&input.gamepads, controller) {
        Some(p) => p,
        None => {
            settings.menu_open = false;
            settings.controller = None;
            return;
        },
    };
    let handles = player_handles(players);
    navigate_palette(settings, &pad, &handles);
}

/// One frame of the palette: the draw-through key switches drawing through
/// geometry; a closed menu opens for the first gamepad that presses Start
/// with D-pad up held; an open menu follows its controller's buttons, and
/// closes when that controller is gone.
pub fn handle_palette_input(settings: &mut DebugSettings, input: &PaletteInput, players: &Vec<usize>)
    requires
        old(settings).wf(),
    ensures
        final(settings).wf(),
        final(settings)@ == palette_step(old(settings)@, *input, players@),
{
    if input.draw_through_key_just_pressed {
        settings.toggle_flag(DebugFlag::DrawThroughGeometry);
    }
    if !settings.menu_open {
        open_palette(settings, input);
    } else {
        follow_controller(settings, input, players);
    }
}

/// Row `i` of the `j`-th info window shows something.
pub open spec fn row_shown(m: DebugMenuModel, j: int, i: int) -> bool {
    m.rows[j].1[i] != FighterDebugRowKind::Blank
}

/// Whether any player's info window shows a row.
pub fn fighter_info_enabled(settings: &DebugSettings) -> (r: bool)
    ensures
        r == exists|j: int, i: int| 0 <= j < settings@.rows.len() && 0 <= i < 6 && #[trigger] row_shown(settings@, j, i),
{
    let mut j: usize = 0;
    while j < settings.player_rows.len()
        invariant
            j <= settings@.rows.len(),
            settings@.rows == settings.player_rows@,
            forall|a: int, i: int| 0 <= a < j && 0 <= i < 6 ==> !#[trigger] row_shown(settings@, a, i),
        decreases settings@.rows.len() - j,
    {
        let rows = &settings.player_rows[j].1;
        let mut i: usize = 0;
        while i < 6
            invariant
                i <= 6,
                j < settings@.rows.len(),
                *rows == settings@.rows[j as int].1,
                forall|b: int| 0 <= b < i ==> rows[b] == FighterDebugRowKind::Blank,
            decreases 6 - i,
        {
            if rows[i] != FighterDebugRowKind::Blank {
                proof {
                    assert(row_shown(settings@, j as int, i as int));
                }
                return true;
            }
            i = i + 1;
        }
        j = j + 1;
    }
    false
}

pub fn network_enabled(settings: &DebugSettings) -> (r: bool)
    ensures
        r == settings@.network,
{
    settings.network
}

pub fn ecb_enabled(settings: &DebugSettings) -> (r: bool)
    ensures
        r == settings@.ecb,
{
    settings.ecb
}

pub fn stage_collision_enabled(settings: &DebugSettings) -> (r: bool)
    ensures
        r == settings@.stage_collision,
{
    settings.stage_collision
}

pub fn animation_bones_enabled(settings: &DebugSettings) -> (r: bool)
    ensures
        r == settings@.animation_bones,
{
    settings.animation_bones
}

pub fn attack_hitboxes_enabled(settings: &DebugSettings) -> (r: bool)
    ensures
        r == settings@.attack_hitboxes,
{
    settings.attack_hitboxes
}

pub fn camera_debug_enabled(settings: &DebugSettings) -> (r: bool)
    ensures
        r == settings@.camera,
{
    settings.camera
}


/// Cycling a row back and forth gives back the row, and switching the
/// motion mode twice gives back the mode.
pub proof fn cycles_undo(k: FighterDebugRowKind, m: PresentationMotionMode)
    ensures
        row_cycled(row_cycled(k, -1), 1) == k,
        row_cycled(row_cycled(k, 1), -1) == k,
        motion_cycled(motion_cycled(m)) == m,
{
}

/// Opening a page and going back restores the palette, with the parent
/// page's selection; on the root page going back does nothing.
pub proof fn back_undoes_open(m: DebugMenuModel, p: DebugMenuPage)
    requires
        model_wf(m),
    ensures
        page_popped(page_pushed(m, p)) == (m, true),
        m.pages.len() == 1 ==> page_popped(m) == (m, false),
{
    assert(m.pages.push(p).drop_last() =~= m.pages);
    assert(m.selections.push(0).drop_last() =~= m.selections);
}

} // verus!
