//! Meta Knight's per-frame rules: the early attack cancel out of the down
//! special (Dimensional Cape), and the "special fall reset": each special move
//! that lands a hit earns one cancel of the helpless fall that follows it.
use vstd::prelude::*;
use crate::pad::{compare_cat, spec_compare_cat};

verus! {

/// The game's values of the statuses, the airborne situation and the attack
/// pad flag that the frame rules compare against. The game resolves these at
/// run time, so the caller reads them and hands them over as plain numbers.
#[derive(Clone, Copy, Debug)]
pub struct MetaKnightConsts {
    pub status_special_lw: i32,
    pub status_special_hi: i32,
    pub status_fall: i32,
    pub status_fall_special: i32,
    pub status_damage: i32,
    pub status_damage_air: i32,
    pub status_damage_fly: i32,
    pub status_damage_fly_roll: i32,
    pub status_damage_fly_meteor: i32,
    pub status_damage_fly_reflect_lr: i32,
    pub status_damage_fly_reflect_u: i32,
    pub status_damage_fly_reflect_d: i32,
    pub status_damage_fall: i32,
    pub status_dead: i32,
    pub status_rebirth: i32,
    pub status_win: i32,
    pub status_lose: i32,
    pub status_entry: i32,
    pub status_special_n_spin: i32,
    pub status_special_n_end: i32,
    pub status_special_s_rush: i32,
    pub status_special_s_end: i32,
    pub status_special_hi_loop: i32,
    pub status_special_lw_end: i32,
    pub status_special_lw_attack: i32,
    pub situation_air: i32,
    pub pad_flag_attack_trigger: i32,
}

impl MetaKnightConsts {
    /// Every status kind named by the rules.
    pub open spec fn status_kinds(self) -> Seq<i32> {
        seq![
            self.status_special_lw,
            self.status_special_hi,
            self.status_fall,
            self.status_fall_special,
            self.status_damage,
            self.status_damage_air,
            self.status_damage_fly,
            self.status_damage_fly_roll,
            self.status_damage_fly_meteor,
            self.status_damage_fly_reflect_lr,
            self.status_damage_fly_reflect_u,
            self.status_damage_fly_reflect_d,
            self.status_damage_fall,
            self.status_dead,
            self.status_rebirth,
            self.status_win,
            self.status_lose,
            self.status_entry,
            self.status_special_n_spin,
            self.status_special_n_end,
            self.status_special_s_rush,
            self.status_special_s_end,
            self.status_special_hi_loop,
            self.status_special_lw_end,
            self.status_special_lw_attack,
        ]
    }

    /// The game gives every status kind its own number.
    pub open spec fn wf(self) -> bool {
        self.status_kinds().no_duplicates()
    }

    /// Statuses after which Meta Knight's special-hit flags are cleared:
    /// being hit, launched, KO'd, respawning, and the match's entry and end.
    pub open spec fn is_reset_status(self, s: i32) -> bool {
        ||| s == self.status_damage
        ||| s == self.status_damage_air
        ||| s == self.status_damage_fly
        ||| s == self.status_damage_fly_roll
        ||| s == self.status_damage_fly_meteor
        ||| s == self.status_damage_fly_reflect_lr
        ||| s == self.status_damage_fly_reflect_u
        ||| s == self.status_damage_fly_reflect_d
        ||| s == self.status_damage_fall
        ||| s == self.status_dead
        ||| s == self.status_rebirth
        ||| s == self.status_win
        ||| s == self.status_lose
        ||| s == self.status_entry
    }

    /// Tests whether `status_kind` is one of the flag-clearing statuses.
    pub fn is_flag_reset_status(&self, status_kind: i32) -> (reset: bool)
        ensures
            reset == self.is_reset_status(status_kind),
    {
        status_kind == self.status_damage || status_kind == self.status_damage_air
            || status_kind == self.status_damage_fly || status_kind == self.status_damage_fly_roll
            || status_kind == self.status_damage_fly_meteor
            || status_kind == self.status_damage_fly_reflect_lr
            || status_kind == self.status_damage_fly_reflect_u
            || status_kind == self.status_damage_fly_reflect_d
            || status_kind == self.status_damage_fall || status_kind == self.status_dead
            || status_kind == self.status_rebirth || status_kind == self.status_win
            || status_kind == self.status_lose || status_kind == self.status_entry
    }
}

/// Whether each of Meta Knight's four specials has landed a hit since the
/// flags were last cleared. One entry per player slot.
#[derive(Clone, Copy, Debug, PartialEq, Eq)]
pub struct SpecialHitFlags {
    pub neutral_special_hit: bool,
    pub side_special_hit: bool,
    pub up_special_hit: bool,
    pub down_special_hit: bool,
}

/// All four flags cleared.
pub open spec fn cleared_flags() -> SpecialHitFlags {
    SpecialHitFlags {
        neutral_special_hit: false,
        side_special_hit: false,
        up_special_hit: false,
        down_special_hit: false,
    }
}

impl SpecialHitFlags {
    /// Flags with no special hit recorded.
    pub fn new() -> (flags: SpecialHitFlags)
        ensures
            flags == cleared_flags(),
    {
        SpecialHitFlags {
            neutral_special_hit: false,
            side_special_hit: false,
            up_special_hit: false,
            down_special_hit: false,
        }
    }

    /// Each flag set in `self` is set in `other` too.
    pub open spec fn implies(self, other: SpecialHitFlags) -> bool {
        &&& self.neutral_special_hit ==> other.neutral_special_hit
        &&& self.side_special_hit ==> other.side_special_hit
        &&& self.up_special_hit ==> other.up_special_hit
        &&& self.down_special_hit ==> other.down_special_hit
    }

    /// No flag is set.
    pub open spec fn none_set(self) -> bool {
        self == cleared_flags()
    }
}

/// A table of `count` cleared flag entries, one per player slot.
pub fn new_flag_table(count: usize) -> (table: Vec<SpecialHitFlags>)
    ensures
        table@.len() == count,
        forall|i: int| 0 <= i < count ==> #[trigger] table@[i] == cleared_flags(),
{
    let mut table: Vec<SpecialHitFlags> = Vec::new();
    let mut n: usize = 0;
    while n < count
        invariant
            n <= count,
            table@.len() == n,
            forall|i: int| 0 <= i < n ==> #[trigger] table@[i] == cleared_flags(),
        decreases count - n,
    {
        table.push(SpecialHitFlags::new());
        n = n + 1;
    }
    table
}

/// The status that the early cape cancel requests, if it fires: during the
/// down special, past the cancel frame, with the attack input pressed.
pub open spec fn cape_cancel_request(
    k: MetaKnightConsts,
    status_kind: i32,
    past_cancel_frame: bool,
    pad_flag: i32,
) -> Option<i32> {
    if status_kind == k.status_special_lw && past_cancel_frame && spec_compare_cat(
        pad_flag,
        k.pad_flag_attack_trigger,
    ) {
        Some(k.status_special_lw_attack)
    } else {
        None
    }
}

/// Dimensional Cape early attack cancel. `past_cancel_frame` tells whether
/// the current motion frame is past the cancel frame; `pad_flag` is the pad
/// flag word. Returns the status to request, if any.
pub fn dim_cape_early_attack_cancel(
    k: &MetaKnightConsts,
    status_kind: i32,
    past_cancel_frame: bool,
    pad_flag: i32,
) -> (request: Option<i32>)
    ensures
        request == cape_cancel_request(*k, status_kind, past_cancel_frame, pad_flag),
{
    if status_kind == k.status_special_lw {
        if past_cancel_frame {
            if compare_cat(pad_flag, k.pad_flag_attack_trigger) {
                return Some(k.status_special_lw_attack);
            }
        }
    }
    None
}

/// The flags after a frame in `status_kind` in which a hit did (`hit`) or
/// did not land: the flag of the special being performed is set.
pub open spec fn flags_after_hit(
    k: MetaKnightConsts,
    f: SpecialHitFlags,
    status_kind: i32,
    hit: bool,
) -> SpecialHitFlags {
    if !hit {
        f
    } else if status_kind == k.status_special_n_spin {
        SpecialHitFlags { neutral_special_hit: true, ..f }
    } else if status_kind == k.status_special_s_rush {
        SpecialHitFlags { side_special_hit: true, ..f }
    } else if status_kind == k.status_special_hi || status_kind == k.status_special_hi_loop {
        SpecialHitFlags { up_special_hit: true, ..f }
    } else if status_kind == k.status_special_lw_attack {
        SpecialHitFlags { down_special_hit: true, ..f }
    } else {
        f
    }
}

/// Records a landed hit of a special move in the flags of player `id`.
/// `hit` tells whether the fighter's attack connected this frame.
pub fn flag_resets(
    k: &MetaKnightConsts,
    flags: &mut Vec<SpecialHitFlags>,
    id: usize,
    status_kind: i32,
    hit: bool,
)
    requires
        id < old(flags)@.len(),
    ensures
        final(flags)@ == old(flags)@.update(
            id as int,
            flags_after_hit(*k, old(flags)@[id as int], status_kind, hit),
        ),
{
    if hit {
        let mut f = flags[id];
        if status_kind == k.status_special_n_spin {
            f.neutral_special_hit = true;
        } else if status_kind == k.status_special_s_rush {
            f.side_special_hit = true;
        } else if status_kind == k.status_special_hi || status_kind == k.status_special_hi_loop {
            f.up_special_hit = true;
        } else if status_kind == k.status_special_lw_attack {
            f.down_special_hit = true;
        }
        flags[id] = f;
    }
    assert(flags@ =~= old(flags)@.update(
        id as int,
        flags_after_hit(*k, old(flags)@[id as int], status_kind, hit),
    ));
}

/// The special whose end leads to `prev_status_kind` has landed a hit.
pub open spec fn earned_fall_cancel(
    k: MetaKnightConsts,
    f: SpecialHitFlags,
    prev_status_kind: i32,
) -> bool {
    ||| prev_status_kind == k.status_special_n_end && f.neutral_special_hit
    ||| prev_status_kind == k.status_special_s_end && f.side_special_hit
    ||| prev_status_kind == k.status_special_hi_loop && f.up_special_hit
    ||| (prev_status_kind == k.status_special_lw_end || prev_status_kind
        == k.status_special_lw_attack) && f.down_special_hit
}

/// The status that the fall transition requests, if any: out of the
/// helpless fall into a normal fall when the special that led there hit.
pub open spec fn fall_request(
    k: MetaKnightConsts,
    f: SpecialHitFlags,
    status_kind: i32,
    prev_status_kind: i32,
) -> Option<i32> {
    if status_kind == k.status_fall_special && earned_fall_cancel(k, f, prev_status_kind) {
        Some(k.status_fall)
    } else {
        None
    }
}

/// Transition out of the helpless fall for player `id`. `prev_status_kind`
/// is the status before the current one. Returns the status to request.
pub fn transition_fall(
    k: &MetaKnightConsts,
    flags: &Vec<SpecialHitFlags>,
    id: usize,
    status_kind: i32,
    prev_status_kind: i32,
) -> (request: Option<i32>)
    requires
        id < flags@.len(),
    ensures
        request == fall_request(*k, flags@[id as int], status_kind, prev_status_kind),
{
    if status_kind == k.status_fall_special {
        let f = flags[id];
        let prev = prev_status_kind;
        if (prev == k.status_special_n_end && f.neutral_special_hit) || (prev
            == k.status_special_s_end && f.side_special_hit) || (prev == k.status_special_hi_loop
            && f.up_special_hit) || ((prev == k.status_special_lw_end || prev
            == k.status_special_lw_attack) && f.down_special_hit) {
            return Some(k.status_fall);
        }
    }
    None
}

/// The flags after the reset rule: cleared unless airborne and outside
/// every flag-clearing status.
pub open spec fn flags_after_reset(
    k: MetaKnightConsts,
    f: SpecialHitFlags,
    status_kind: i32,
    situation_kind: i32,
) -> SpecialHitFlags {
    if situation_kind != k.situation_air || k.is_reset_status(status_kind) {
        cleared_flags()
    } else {
        f
    }
}

/// Clears the flags of player `id` when grounded, hit, KO'd, or between games.
pub fn reset_flags(
    k: &MetaKnightConsts,
    flags: &mut Vec<SpecialHitFlags>,
    id: usize,
    status_kind: i32,
    situation_kind: i32,
)
    requires
        id < old(flags)@.len(),
    ensures
        final(flags)@ == old(flags)@.update(
            id as int,
            flags_after_reset(*k, old(flags)@[id as int], status_kind, situation_kind),
        ),
{
    if situation_kind != k.situation_air || k.is_flag_reset_status(status_kind) {
        flags[id] = SpecialHitFlags::new();
    }
    assert(flags@ =~= old(flags)@.update(
        id as int,
        flags_after_reset(*k, old(flags)@[id as int], status_kind, situation_kind),
    ));
}

/// What the game reports about one player's fighter on one frame.
#[derive(Clone, Copy, Debug)]
pub struct FrameInput {
    /// Player slot.
    pub id: usize,
    pub status_kind: i32,
    pub situation_kind: i32,
    /// The status before the current one.
    pub prev_status_kind: i32,
    /// The pad flag word.
    pub pad_flag: i32,
    /// The motion frame is past the cape cancel frame.
    pub past_cape_cancel_frame: bool,
    /// The fighter's attack connected.
    pub hit: bool,
}

/// The player's flags after one frame.
pub open spec fn frame_flags(
    k: MetaKnightConsts,
    f: SpecialHitFlags,
    input: FrameInput,
) -> SpecialHitFlags {
    flags_after_reset(
        k,
        flags_after_hit(k, f, input.status_kind, input.hit),
        input.status_kind,
        input.situation_kind,
    )
}

/// The empty or one-element sequence of an optional request.
pub open spec fn request_seq(r: Option<i32>) -> Seq<i32> {
    match r {
        Some(s) => seq![s],
        None => Seq::empty(),
    }
}

/// The status requests of one frame, in the order they are made.
pub open spec fn frame_requests(
    k: MetaKnightConsts,
    f: SpecialHitFlags,
    input: FrameInput,
) -> Seq<i32> {
    request_seq(
        cape_cancel_request(k, input.status_kind, input.past_cape_cancel_frame, input.pad_flag),
    ) + request_seq(
        fall_request(
            k,
            flags_after_hit(k, f, input.status_kind, input.hit),
            input.status_kind,
            input.prev_status_kind,
        ),
    )
}

/// One frame of Meta Knight's rules for the player `input.id`: the cape
/// cancel, recording a special hit, the fall transition and the flag reset,
/// in that order. Returns the statuses to request from the game, in order.
pub fn moveset(
    k: &MetaKnightConsts,
    flags: &mut Vec<SpecialHitFlags>,
    input: &FrameInput,
) -> (requests: Vec<i32>)
    requires
        input.id < old(flags)@.len(),
    ensures
        final(flags)@ == old(flags)@.update(
            input.id as int,
            frame_flags(*k, old(flags)@[input.id as int], *input),
        ),
        requests@ == frame_requests(*k, old(flags)@[input.id as int], *input),
{
    let id = input.id;
    let ghost f0 = flags@[id as int];
    let mut requests: Vec<i32> = Vec::new();
    match dim_cape_early_attack_cancel(
        k,
        input.status_kind,
        input.past_cape_cancel_frame,
        input.pad_flag,
    ) {
        Some(s) => requests.push(s),
        None => {},
    }
    flag_resets(k, flags, id, input.status_kind, input.hit);
    match transition_fall(k, flags, id, input.status_kind, input.prev_status_kind) {
        Some(s) => requests.push(s),
        None => {},
    }
    reset_flags(k, flags, id, input.status_kind, input.situation_kind);
    assert(flags@ =~= old(flags)@.update(id as int, frame_flags(*k, f0, *input)));
    assert(requests@ =~= frame_requests(*k, f0, *input));
    requests
}

/// The flags after a run of frames, the first frame first.
pub open spec fn run_flags(
    k: MetaKnightConsts,
    f: SpecialHitFlags,
    frames: Seq<FrameInput>,
) -> SpecialHitFlags
    decreases frames.len(),
{
    if frames.len() == 0 {
        f
    } else {
        run_flags(k, frame_flags(k, f, frames[0]), frames.drop_first())
    }
}

/// Landing a hit in status `hit_status` earns the cancel of a helpless fall
/// entered from `prev_status`.
pub open spec fn special_leads_to(k: MetaKnightConsts, hit_status: i32, prev_status: i32) -> bool {
    ||| hit_status == k.status_special_n_spin && prev_status == k.status_special_n_end
    ||| hit_status == k.status_special_s_rush && prev_status == k.status_special_s_end
    ||| (hit_status == k.status_special_hi || hit_status == k.status_special_hi_loop)
        && prev_status == k.status_special_hi_loop
    ||| hit_status == k.status_special_lw_attack && (prev_status == k.status_special_lw_end
        || prev_status == k.status_special_lw_attack)
}

/// The frame does not clear the flags: airborne, in no flag-clearing status.
pub open spec fn keeps_flags(k: MetaKnightConsts, input: FrameInput) -> bool {
    input.situation_kind == k.situation_air && !k.is_reset_status(input.status_kind)
}

proof fn lemma_wf_facts(k: MetaKnightConsts)
    requires
        k.wf(),
    ensures
        !k.is_reset_status(k.status_special_n_spin),
        !k.is_reset_status(k.status_special_s_rush),
        !k.is_reset_status(k.status_special_hi),
        !k.is_reset_status(k.status_special_hi_loop),
        !k.is_reset_status(k.status_special_lw_attack),
        k.status_special_n_spin != k.status_special_s_rush,
        k.status_special_n_spin != k.status_special_hi,
        k.status_special_n_spin != k.status_special_hi_loop,
        k.status_special_n_spin != k.status_special_lw_attack,
        k.status_special_s_rush != k.status_special_hi,
        k.status_special_s_rush != k.status_special_hi_loop,
        k.status_special_s_rush != k.status_special_lw_attack,
        k.status_special_hi != k.status_special_lw_attack,
        k.status_special_hi_loop != k.status_special_lw_attack,
        k.status_fall != k.status_special_lw_attack,
{
    let s = k.status_kinds();
    assert(s[1] == k.status_special_hi);
    assert(s[2] == k.status_fall);
    assert(s[18] == k.status_special_n_spin);
    assert(s[20] == k.status_special_s_rush);
    assert(s[22] == k.status_special_hi_loop);
    assert(s[24] == k.status_special_lw_attack);
    assert(s[4] == k.status_damage);
    assert(s[5] == k.status_damage_air);
    assert(s[6] == k.status_damage_fly);
    assert(s[7] == k.status_damage_fly_roll);
    assert(s[8] == k.status_damage_fly_meteor);
    assert(s[9] == k.status_damage_fly_reflect_lr);
    assert(s[10] == k.status_damage_fly_reflect_u);
    assert(s[11] == k.status_damage_fly_reflect_d);
    assert(s[12] == k.status_damage_fall);
    assert(s[13] == k.status_dead);
    assert(s[14] == k.status_rebirth);
    assert(s[15] == k.status_win);
    assert(s[16] == k.status_lose);
    assert(s[17] == k.status_entry);
}

/// A frame spent on the ground clears every flag of the player.
pub proof fn lemma_grounded_frame_clears_flags(
    k: MetaKnightConsts,
    f: SpecialHitFlags,
    input: FrameInput,
)
    requires
        input.situation_kind != k.situation_air,
    ensures
        frame_flags(k, f, input).none_set(),
{
}

/// A frame in a flag-clearing status (hit, launched, KO'd, respawning, entry,
/// match end) clears every flag of the player, even in the air.
pub proof fn lemma_reset_status_clears_flags(
    k: MetaKnightConsts,
    f: SpecialHitFlags,
    input: FrameInput,
)
    requires
        k.is_reset_status(input.status_kind),
    ensures
        frame_flags(k, f, input).none_set(),
{
}

/// While the fighter stays airborne and outside the flag-clearing statuses,
/// a flag once set stays set.
pub proof fn lemma_airborne_frame_keeps_flags(
    k: MetaKnightConsts,
    f: SpecialHitFlags,
    input: FrameInput,
)
    requires
        keeps_flags(k, input),
    ensures
        f.implies(frame_flags(k, f, input)),
{
}

/// The same over any run of such frames.
pub proof fn lemma_airborne_run_keeps_flags(
    k: MetaKnightConsts,
    f: SpecialHitFlags,
    frames: Seq<FrameInput>,
)
    requires
        forall|i: int| 0 <= i < frames.len() ==> keeps_flags(k, #[trigger] frames[i]),
    ensures
        f.implies(run_flags(k, f, frames)),
    decreases frames.len(),
{
    if frames.len() > 0 {
        let g = frame_flags(k, f, frames[0]);
        assert(keeps_flags(k, frames[0]));
        let rest = frames.drop_first();
        assert forall|i: int| 0 <= i < rest.len() implies keeps_flags(k, #[trigger] rest[i]) by {
            assert(rest[i] == frames[i + 1]);
        }
        lemma_airborne_run_keeps_flags(k, g, rest);
    }
}

/// A special move that lands a hit in the air earns the cancel of the
/// helpless fall that follows its end: after any airborne frames outside the
/// flag-clearing statuses, the first helpless-fall frame entered from the
/// special's end requests the normal fall.
pub proof fn lemma_special_hit_earns_fall_cancel(
    k: MetaKnightConsts,
    f: SpecialHitFlags,
    hit_frame: FrameInput,
    between: Seq<FrameInput>,
    fall_frame: FrameInput,
)
    requires
        k.wf(),
        hit_frame.hit,
        keeps_flags(k, hit_frame),
        forall|i: int| 0 <= i < between.len() ==> keeps_flags(k, #[trigger] between[i]),
        special_leads_to(k, hit_frame.status_kind, fall_frame.prev_status_kind),
        fall_frame.status_kind == k.status_fall_special,
    ensures
        frame_requests(k, run_flags(k, frame_flags(k, f, hit_frame), between), fall_frame).contains(
            k.status_fall,
        ),
{
    lemma_wf_facts(k);
    let g = frame_flags(k, f, hit_frame);
    let h = run_flags(k, g, between);
    lemma_airborne_run_keeps_flags(k, g, between);
    let h2 = flags_after_hit(k, h, fall_frame.status_kind, fall_frame.hit);
    assert(h.implies(h2));
    assert(earned_fall_cancel(k, h2, fall_frame.prev_status_kind));
    let reqs = frame_requests(k, h, fall_frame);
    let c = request_seq(
        cape_cancel_request(
            k,
            fall_frame.status_kind,
            fall_frame.past_cape_cancel_frame,
            fall_frame.pad_flag,
        ),
    );
    assert(reqs[c.len() as int] == k.status_fall);
}

/// Without a recorded special hit, and no hit this frame, no frame requests
/// the normal fall.
pub proof fn lemma_no_hit_no_fall_cancel(
    k: MetaKnightConsts,
    f: SpecialHitFlags,
    input: FrameInput,
)
    requires
        k.wf(),
        f.none_set(),
        !input.hit,
    ensures
        !frame_requests(k, f, input).contains(k.status_fall),
{
    lemma_wf_facts(k);
    let reqs = frame_requests(k, f, input);
    assert(fall_request(k, f, input.status_kind, input.prev_status_kind) is None);
    if reqs.contains(k.status_fall) {
        let i = choose|i: int| 0 <= i < reqs.len() && reqs[i] == k.status_fall;
        assert(reqs[i] == k.status_special_lw_attack);
    }
}

/// The cape cancel fires exactly during the down special, past the cancel
/// frame, with a bit of the attack input set, and then asks for the down
/// special's attack.
pub proof fn lemma_cape_cancel_only_from_down_special(
    k: MetaKnightConsts,
    status_kind: i32,
    past_cancel_frame: bool,
    pad_flag: i32,
)
    ensures
        cape_cancel_request(k, status_kind, past_cancel_frame, pad_flag) is Some <==> (status_kind
            == k.status_special_lw && past_cancel_frame && (pad_flag & k.pad_flag_attack_trigger)
            != 0),
        cape_cancel_request(k, status_kind, past_cancel_frame, pad_flag) is Some ==> cape_cancel_request(
            k,
            status_kind,
            past_cancel_frame,
            pad_flag,
        ) == Some(k.status_special_lw_attack),
{
}

/// A hit changes at most one flag, sets it rather than clears it, and only
/// the flag of the special being performed; without a hit nothing changes.
pub proof fn lemma_hit_sets_only_own_flag(
    k: MetaKnightConsts,
    f: SpecialHitFlags,
    status_kind: i32,
    hit: bool,
)
    ensures
        ({
            let g = flags_after_hit(k, f, status_kind, hit);
            &&& f.implies(g)
            &&& !hit ==> g == f
            &&& g.neutral_special_hit != f.neutral_special_hit ==> status_kind
                == k.status_special_n_spin
            &&& g.side_special_hit != f.side_special_hit ==> status_kind
                == k.status_special_s_rush
            &&& g.up_special_hit != f.up_special_hit ==> (status_kind == k.status_special_hi
                || status_kind == k.status_special_hi_loop)
            &&& g.down_special_hit != f.down_special_hit ==> status_kind
                == k.status_special_lw_attack
            &&& (g.neutral_special_hit != f.neutral_special_hit) as int + (g.side_special_hit
                != f.side_special_hit) as int + (g.up_special_hit != f.up_special_hit) as int + (
            g.down_special_hit != f.down_special_hit) as int <= 1
        }),
{
}

/// With distinct status numbers, a hit in each special sets that special's
/// flag.
pub proof fn lemma_hit_sets_own_flag(k: MetaKnightConsts, f: SpecialHitFlags)
    requires
        k.wf(),
    ensures
        flags_after_hit(k, f, k.status_special_n_spin, true).neutral_special_hit,
        flags_after_hit(k, f, k.status_special_s_rush, true).side_special_hit,
        flags_after_hit(k, f, k.status_special_hi, true).up_special_hit,
        flags_after_hit(k, f, k.status_special_hi_loop, true).up_special_hit,
        flags_after_hit(k, f, k.status_special_lw_attack, true).down_special_hit,
{
    lemma_wf_facts(k);
}

/// The helpless fall is cancelled only from the helpless fall, into the
/// normal fall, and only when a special that leads to the status before it
/// has its hit already recorded (recording that hit again changes nothing).
pub proof fn lemma_fall_cancel_needs_recorded_hit(
    k: MetaKnightConsts,
    f: SpecialHitFlags,
    status_kind: i32,
    prev_status_kind: i32,
)
    requires
        k.wf(),
        fall_request(k, f, status_kind, prev_status_kind) is Some,
    ensures
        status_kind == k.status_fall_special,
        fall_request(k, f, status_kind, prev_status_kind) == Some(k.status_fall),
        exists|h: i32|
            special_leads_to(k, h, prev_status_kind) && #[trigger] flags_after_hit(k, f, h, true)
                == f,
{
    lemma_wf_facts(k);
    let prev = prev_status_kind;
    if prev == k.status_special_n_end && f.neutral_special_hit {
        assert(flags_after_hit(k, f, k.status_special_n_spin, true) == f);
        assert(special_leads_to(k, k.status_special_n_spin, prev));
    } else if prev == k.status_special_s_end && f.side_special_hit {
        assert(flags_after_hit(k, f, k.status_special_s_rush, true) == f);
        assert(special_leads_to(k, k.status_special_s_rush, prev));
    } else if prev == k.status_special_hi_loop && f.up_special_hit {
        assert(flags_after_hit(k, f, k.status_special_hi_loop, true) == f);
        assert(special_leads_to(k, k.status_special_hi_loop, prev));
    } else {
        assert(flags_after_hit(k, f, k.status_special_lw_attack, true) == f);
        assert(special_leads_to(k, k.status_special_lw_attack, prev));
    }
}

/// In particular, the fall after the neutral special's end is cancelled
/// only when the neutral special hit, and likewise for each special.
pub proof fn lemma_fall_cancel_matches_special(k: MetaKnightConsts, f: SpecialHitFlags)
    requires
        k.wf(),
    ensures
        fall_request(k, f, k.status_fall_special, k.status_special_n_end) is Some
            <==> f.neutral_special_hit,
        fall_request(k, f, k.status_fall_special, k.status_special_s_end) is Some
            <==> f.side_special_hit,
        fall_request(k, f, k.status_fall_special, k.status_special_hi_loop) is Some
            <==> f.up_special_hit,
        fall_request(k, f, k.status_fall_special, k.status_special_lw_end) is Some
            <==> f.down_special_hit,
        fall_request(k, f, k.status_fall_special, k.status_special_lw_attack) is Some
            <==> f.down_special_hit,
{
    lemma_wf_facts(k);
}

/// The flags are cleared on the ground, and in the air exactly in the
/// statuses of being hit, launched, falling from a hit, KO'd, respawning,
/// entering the match or ending it; otherwise they are kept.
pub proof fn lemma_reset_clears_exactly(
    k: MetaKnightConsts,
    f: SpecialHitFlags,
    status_kind: i32,
    situation_kind: i32,
)
    ensures
        situation_kind != k.situation_air ==> flags_after_reset(
            k,
            f,
            status_kind,
            situation_kind,
        ).none_set(),
        (status_kind == k.status_damage || status_kind == k.status_damage_air || status_kind
            == k.status_damage_fly || status_kind == k.status_damage_fly_roll || status_kind
            == k.status_damage_fly_meteor || status_kind == k.status_damage_fly_reflect_lr
            || status_kind == k.status_damage_fly_reflect_u || status_kind
            == k.status_damage_fly_reflect_d || status_kind == k.status_damage_fall
            || status_kind == k.status_dead || status_kind == k.status_rebirth || status_kind
            == k.status_win || status_kind == k.status_lose || status_kind == k.status_entry)
            ==> flags_after_reset(k, f, status_kind, situation_kind).none_set(),
        (situation_kind == k.situation_air && status_kind != k.status_damage && status_kind
            != k.status_damage_air && status_kind != k.status_damage_fly && status_kind
            != k.status_damage_fly_roll && status_kind != k.status_damage_fly_meteor
            && status_kind != k.status_damage_fly_reflect_lr && status_kind
            != k.status_damage_fly_reflect_u && status_kind != k.status_damage_fly_reflect_d
            && status_kind != k.status_damage_fall && status_kind != k.status_dead && status_kind
            != k.status_rebirth && status_kind != k.status_win && status_kind != k.status_lose
            && status_kind != k.status_entry) ==> flags_after_reset(
            k,
            f,
            status_kind,
            situation_kind,
        ) == f,
{
}

/// A frame's requests are at most two: the cape cancel's first, then the
/// fall cancel's; a frame in neither the down special nor the helpless fall
/// requests nothing.
pub proof fn lemma_frame_requests_shape(k: MetaKnightConsts, f: SpecialHitFlags, input: FrameInput)
    ensures
        frame_requests(k, f, input).len() <= 2,
        input.status_kind != k.status_special_lw && input.status_kind != k.status_fall_special
            ==> frame_requests(k, f, input).len() == 0,
        forall|i: int|
            0 <= i < frame_requests(k, f, input).len() ==> #[trigger] frame_requests(k, f, input)[i]
                == k.status_special_lw_attack || frame_requests(k, f, input)[i] == k.status_fall,
{
    let a = request_seq(
        cape_cancel_request(k, input.status_kind, input.past_cape_cancel_frame, input.pad_flag),
    );
    let b = request_seq(
        fall_request(
            k,
            flags_after_hit(k, f, input.status_kind, input.hit),
            input.status_kind,
            input.prev_status_kind,
        ),
    );
    assert forall|i: int| 0 <= i < (a + b).len() implies #[trigger] (a + b)[i]
        == k.status_special_lw_attack || (a + b)[i] == k.status_fall by {
        if i < a.len() {
            assert((a + b)[i] == a[i]);
        } else {
            assert((a + b)[i] == b[i - a.len()]);
        }
    }
}

} // verus!
