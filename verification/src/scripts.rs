//! The small object scripts: what each does with the messages it is sent,
//! given what the mission reads off the world for it.
use vstd::prelude::*;

use crate::effect::{Effect, EntityId, GlobalEffect, MessagePayload, QuestBitValue};

verus! {

/// The charged power cell's template.
pub const CHARGED_POWER_CELL_TEMPLATE: i32 = -1863;

/// A dead power cell: recharging it replaces it with a charged one.
pub struct DeadPowerCell;

impl DeadPowerCell {
    pub fn new() -> (r: DeadPowerCell) {
        DeadPowerCell
    }

    /// A recharge turns the cell into a charged one; nothing else does
    /// anything.
    pub fn handle_message(&self, entity_id: EntityId, msg: &MessagePayload) -> (e: Effect)
        ensures
            *msg == MessagePayload::Recharge ==> e == (Effect::ReplaceEntity {
                entity_id,
                template_id: CHARGED_POWER_CELL_TEMPLATE,
            }),
            *msg != MessagePayload::Recharge ==> e is NoEffect,
    {
        match msg {
            MessagePayload::Recharge => Effect::ReplaceEntity { entity_id, template_id: CHARGED_POWER_CELL_TEMPLATE },
            _ => Effect::NoEffect,
        }
    }
}

/// The finale's terminus: turned on once SHODAN is dead, it ends the
/// campaign.
pub struct DieShodanDie;

impl DieShodanDie {
    pub fn new() -> (r: DieShodanDie) {
        DieShodanDie
    }

    /// `TurnOn` completes the campaign; nothing else does anything.
    pub fn handle_message(&self, msg: &MessagePayload) -> (e: Effect)
        ensures
            *msg is TurnOn ==> e == Effect::GlobalEffect(GlobalEffect::CompleteCampaign),
            !(*msg is TurnOn) ==> e is NoEffect,
    {
        match msg {
            MessagePayload::TurnOn { .. } => Effect::GlobalEffect(GlobalEffect::CompleteCampaign),
            _ => Effect::NoEffect,
        }
    }
}

/// A character with ASCII upper case folded to lower case.
pub open spec fn lower_ascii(c: char) -> char {
    if 'A' <= c <= 'Z' {
        ((c as u32) + 32) as char
    } else {
        c
    }
}

/// A string with ASCII upper case folded to lower case.
pub fn to_ascii_lowercase(s: &str) -> (r: String)
    ensures
        r@ == s@.map_values(|c: char| lower_ascii(c)),
{
    let n = s.unicode_len();
    let mut out = String::new();
    let mut i: usize = 0;
    while i < n
        invariant
            i <= n,
            n == s@.len(),
            out@ == s@.take(i as int).map_values(|c: char| lower_ascii(c)),
        decreases n - i,
    {
        let c = s.get_char(i);
        let l = if 'A' <= c && c <= 'Z' {
            let v: u8 = (c as u32 + 32) as u8;
            v as char
        } else {
            c
        };
        crate::text::push_char(&mut out, l);
        assert(s@.take(i as int + 1).map_values(|c: char| lower_ascii(c)) =~= s@.take(i as int).map_values(
            |c: char| lower_ascii(c),
        ).push(lower_ascii(c)));
        i += 1;
    }
    assert(s@.take(n as int) =~= s@);
    out
}

/// Destroys, when turned on, every object named by its consume type.
pub struct DestroyAllByName {}

impl DestroyAllByName {
    pub fn new() -> (r: DestroyAllByName) {
        DestroyAllByName {}
    }

    /// The name the objects are looked up by: the consume type, lower case.
    pub fn match_name(consume_type: &str) -> (r: String)
        ensures
            r@ == consume_type@.map_values(|c: char| lower_ascii(c)),
    {
        to_ascii_lowercase(consume_type)
    }

    /// `TurnOn` destroys each of `targets` (the objects named by the consume
    /// type; `None` when the object has no consume type, which does nothing).
    pub fn handle_message(&self, msg: &MessagePayload, targets: Option<&Vec<EntityId>>) -> (e: Effect)
        ensures
            (*msg is TurnOn && targets is Some) ==> (e matches Effect::Combined { effects } && effects@.len()
                == targets.unwrap()@.len() && forall|i: int|
                0 <= i < effects@.len() ==> #[trigger] effects@[i] == (Effect::DestroyEntity {
                    entity_id: targets.unwrap()@[i],
                })),
            !(*msg is TurnOn && targets is Some) ==> e is NoEffect,
    {
        if !matches!(msg, MessagePayload::TurnOn { .. }) {
            return Effect::NoEffect;
        }
        let Some(targets) = targets else {
            return Effect::NoEffect;
        };
        Effect::Combined { effects: destroy_each(targets) }
    }
}

/// One `DestroyEntity` per target, in order.
pub fn destroy_each(targets: &Vec<EntityId>) -> (effects: Vec<Effect>)
    ensures
        effects@.len() == targets@.len(),
        forall|i: int| 0 <= i < effects@.len() ==> #[trigger] effects@[i] == (Effect::DestroyEntity { entity_id: targets@[i] }),
{
    let mut effects: Vec<Effect> = Vec::new();
    let mut i: usize = 0;
    while i < targets.len()
        invariant
            i <= targets@.len(),
            effects@.len() == i,
            forall|k: int| 0 <= k < i ==> #[trigger] effects@[k] == (Effect::DestroyEntity { entity_id: targets@[k] }),
        decreases targets@.len() - i,
    {
        effects.push(Effect::DestroyEntity { entity_id: targets[i] });
        i += 1;
    }
    effects
}

/// A grenade starts reacting to contact this long after the throw.
pub const GRENADE_ARM_DELAY_NS: u64 = 50_000_000;

/// A grenade nothing bumps goes away this long after the throw.
pub const GRENADE_LIFETIME_NS: u64 = 30_000_000_000;

/// The grenade hybrid's grenade: it goes off when something bumps it once it
/// has armed, and quietly goes away if nothing ever does.
pub struct DelayGrenade {
    /// Nanoseconds since the throw.
    pub age_ns: u64,
}

impl DelayGrenade {
    pub fn new() -> (r: DelayGrenade)
        ensures
            r.age_ns == 0,
    {
        DelayGrenade { age_ns: 0 }
    }

    /// A frame of `elapsed_ns` passes: the grenade ages (the age holds at the
    /// top of its range), and expires without a blast at its lifetime.
    pub fn update(&mut self, entity_id: EntityId, elapsed_ns: u64) -> (e: Effect)
        ensures
            final(self).age_ns == if old(self).age_ns + elapsed_ns > u64::MAX {
                u64::MAX as int
            } else {
                old(self).age_ns + elapsed_ns
            },
            final(self).age_ns >= GRENADE_LIFETIME_NS ==> e == (Effect::DestroyEntity { entity_id }),
            final(self).age_ns < GRENADE_LIFETIME_NS ==> e is NoEffect,
    {
        self.age_ns = self.age_ns.saturating_add(elapsed_ns);
        if self.age_ns >= GRENADE_LIFETIME_NS {
            Effect::DestroyEntity { entity_id }
        } else {
            Effect::NoEffect
        }
    }

    /// A contact once armed sets it off (its corpse is the blast); nothing
    /// else does anything.
    pub fn handle_message(&self, entity_id: EntityId, msg: &MessagePayload) -> (e: Effect)
        ensures
            (*msg is Collided && self.age_ns >= GRENADE_ARM_DELAY_NS) ==> e == (Effect::SlayEntity { entity_id }),
            !(*msg is Collided && self.age_ns >= GRENADE_ARM_DELAY_NS) ==> e is NoEffect,
    {
        match msg {
            MessagePayload::Collided { .. } if self.age_ns >= GRENADE_ARM_DELAY_NS => Effect::SlayEntity { entity_id },
            _ => Effect::NoEffect,
        }
    }
}

/// An armed grenade stays armed: whatever frames pass, a contact after one
/// that would have set it off still sets it off.
pub proof fn law_an_armed_grenade_stays_armed(age_ns: u64, elapsed_ns: u64)
    requires
        age_ns >= GRENADE_ARM_DELAY_NS,
    ensures
        (if age_ns + elapsed_ns > u64::MAX {
            u64::MAX as int
        } else {
            age_ns + elapsed_ns
        }) >= GRENADE_ARM_DELAY_NS,
{
}

/// The modules a cyber-module pickup awards: its stack count when positive,
/// else its authored experience value, else none.
pub open spec fn spec_cookie_award(stack_count: Option<i32>, exp: Option<i32>) -> i32 {
    match stack_count {
        Some(n) if n > 0 => n,
        _ => match exp {
            Some(x) => x,
            None => 0,
        },
    }
}

/// A cyber-module pickup: frobbing it awards its modules and removes it. It
/// awards once: a second frob in the same batch (before the removal applies)
/// awards nothing more.
pub struct ExpCookie {
    pub collected: bool,
}

impl ExpCookie {
    pub fn new() -> (r: ExpCookie)
        ensures
            !r.collected,
    {
        ExpCookie { collected: false }
    }

    /// The first frob awards the modules of [`spec_cookie_award`] and removes
    /// the pickup; anything after that, and any other message, does nothing.
    pub fn handle_message(
        &mut self,
        entity_id: EntityId,
        msg: &MessagePayload,
        stack_count: Option<i32>,
        exp: Option<i32>,
    ) -> (e: Effect)
        ensures
            (*msg == MessagePayload::Frob && !old(self).collected) ==> {
                &&& final(self).collected
                &&& e matches Effect::Combined { effects } && effects@ == seq![
                    Effect::AwardXP { amount: spec_cookie_award(stack_count, exp) },
                    Effect::DestroyEntity { entity_id },
                ]
            },
            !(*msg == MessagePayload::Frob && !old(self).collected) ==> final(self).collected == old(self).collected
                && e is NoEffect,
    {
        if !(*msg == MessagePayload::Frob && !self.collected) {
            return Effect::NoEffect;
        }
        self.collected = true;
        let amount = match stack_count {
            Some(n) if n > 0 => n,
            _ => match exp {
                Some(x) => x,
                None => 0,
            },
        };
        let mut effects: Vec<Effect> = Vec::new();
        effects.push(Effect::AwardXP { amount });
        effects.push(Effect::DestroyEntity { entity_id });
        assert(effects@ =~= seq![Effect::AwardXP { amount }, Effect::DestroyEntity { entity_id }]);
        Effect::Combined { effects }
    }
}

/// A weapon's charge after a recharge to `capacity`: raised to the capacity
/// (at least zero), never lowered.
pub open spec fn recharged(ammo: i32, capacity: i32) -> i32 {
    let cap: i32 = if capacity < 0 {
        0
    } else {
        capacity
    };
    if ammo < cap {
        cap
    } else {
        ammo
    }
}

/// Recharges a weapon's ammo to `capacity`; a full or over-full weapon keeps
/// what it has, so repeating the recharge changes nothing.
pub fn recharge_ammo_to_capacity(ammo: &mut i32, capacity: i32)
    ensures
        *final(ammo) == recharged(*old(ammo), capacity),
{
    let cap = if capacity < 0 {
        0
    } else {
        capacity
    };
    if *ammo < cap {
        *ammo = cap;
    }
}

/// Recharging is idempotent and never lowers the charge.
pub proof fn law_recharge_is_idempotent_and_monotonic(ammo: i32, capacity: i32)
    ensures
        recharged(recharged(ammo, capacity), capacity) == recharged(ammo, capacity),
        recharged(ammo, capacity) >= ammo,
{
}

/// An energy weapon: a recharge fills it to its active setting's clip.
pub struct EnergyWeapon;

impl EnergyWeapon {
    pub fn new() -> (r: EnergyWeapon) {
        EnergyWeapon
    }

    /// A recharge of a weapon that has an active setting (`clip`) and a gun
    /// state (`ammo`) and is below capacity asks for a recharge to the clip
    /// (at least zero); a full weapon, and any other message, does nothing.
    pub fn handle_message(&self, entity_id: EntityId, msg: &MessagePayload, clip: Option<i32>, ammo: Option<i32>) -> (e:
        Effect)
        ensures
            match (*msg, clip, ammo) {
                (MessagePayload::Recharge, Some(c), Some(a)) => {
                    let capacity: i32 = if c < 0 {
                        0
                    } else {
                        c
                    };
                    if a >= capacity {
                        e is NoEffect
                    } else {
                        e == (Effect::RechargeAmmo { entity_id, capacity })
                    }
                },
                _ => e is NoEffect,
            },
    {
        if *msg != MessagePayload::Recharge {
            return Effect::NoEffect;
        }
        let (Some(c), Some(a)) = (clip, ammo) else {
            return Effect::NoEffect;
        };
        let capacity = if c < 0 {
            0
        } else {
            c
        };
        if a >= capacity {
            Effect::NoEffect
        } else {
            Effect::RechargeAmmo { entity_id, capacity }
        }
    }
}

/// How long a charged item must stay out of contact before holding it to the
/// station charges it again; it also absorbs a wobbling hand's jitter.
pub const CONTACT_RELEASE_NS: u64 = 500_000_000;

/// A recharging station. Frobbing it recharges everything the player
/// carries; holding one item to it (a hand ray over it, or a bump) charges
/// that item once per continuous contact, the contact latched until the item
/// has been away for [`CONTACT_RELEASE_NS`].
pub struct EnergyStation {
    /// The item pressed to the station now, if any.
    pub contact_target: Option<EntityId>,
    /// Nanoseconds since that item's contact was last seen.
    pub ns_since_contact: u64,
}

/// Recharging `item` at `station`: the item is sent a recharge and the station
/// plays its sound.
pub open spec fn recharge_one(station: EntityId, item: EntityId) -> Seq<Effect> {
    seq![
        Effect::Send { to: item, payload: MessagePayload::Recharge },
        Effect::PlayActivateSound { source: station },
    ]
}

impl EnergyStation {
    pub fn new() -> (r: EnergyStation)
        ensures
            r.contact_target is None,
            r.ns_since_contact == 0,
    {
        EnergyStation { contact_target: None, ns_since_contact: 0 }
    }

    /// A frame passes: a latched contact ages, and lapses once it has been
    /// away longer than the release window.
    pub fn update(&mut self, elapsed_ns: u64)
        ensures
            old(self).contact_target is None ==> *final(self) == *old(self),
            old(self).contact_target is Some ==> {
                let aged = if old(self).ns_since_contact + elapsed_ns > u64::MAX {
                    u64::MAX as int
                } else {
                    old(self).ns_since_contact + elapsed_ns
                };
                &&& final(self).ns_since_contact == aged
                &&& final(self).contact_target == if aged > CONTACT_RELEASE_NS {
                    None
                } else {
                    old(self).contact_target
                }
            },
    {
        if self.contact_target.is_some() {
            self.ns_since_contact = self.ns_since_contact.saturating_add(elapsed_ns);
            if self.ns_since_contact > CONTACT_RELEASE_NS {
                self.contact_target = None;
            }
        }
    }

    /// Contact with `with`: the first contact charges it; repeated contact only
    /// renews the latch.
    fn contact(&mut self, station: EntityId, with: EntityId) -> (e: Effect)
        ensures
            final(self).contact_target == Some(with),
            final(self).ns_since_contact == 0,
            old(self).contact_target == Some(with) ==> e is NoEffect,
            old(self).contact_target != Some(with) ==> (e matches Effect::Combined { effects } && effects@
                == recharge_one(station, with)),
    {
        let renewed = self.contact_target == Some(with);
        self.contact_target = Some(with);
        self.ns_since_contact = 0;
        if renewed {
            Effect::NoEffect
        } else {
            let mut effects: Vec<Effect> = Vec::new();
            effects.push(Effect::Send { to: with, payload: MessagePayload::Recharge });
            effects.push(Effect::PlayActivateSound { source: station });
            assert(effects@ =~= recharge_one(station, with));
            Effect::Combined { effects }
        }
    }

    /// A message to the station: a hand ray holding an item, or a bump,
    /// charges that item once per contact; a frob recharges every item in
    /// `carried` (each item answers the recharge for itself) and plays the
    /// station's sound, every time; anything else does nothing.
    pub fn handle_message(&mut self, station: EntityId, msg: &MessagePayload, carried: &Vec<EntityId>) -> (e: Effect)
        ensures
            match *msg {
                MessagePayload::Hover { held: Some(with) } | MessagePayload::Collided { with } => {
                    &&& final(self).contact_target == Some(with)
                    &&& final(self).ns_since_contact == 0
                    &&& old(self).contact_target == Some(with) ==> e is NoEffect
                    &&& old(self).contact_target != Some(with) ==> (e matches Effect::Combined { effects }
                        && effects@ == recharge_one(station, with))
                },
                MessagePayload::Frob => {
                    &&& *final(self) == *old(self)
                    &&& e matches Effect::Combined { effects } && effects@ == Seq::new(
                        carried@.len(),
                        |i: int| Effect::Send { to: carried@[i], payload: MessagePayload::Recharge },
                    ).push(Effect::PlayActivateSound { source: station })
                },
                _ => *final(self) == *old(self) && e is NoEffect,
            },
    {
        match msg {
            MessagePayload::Hover { held: Some(with) } => self.contact(station, *with),
            MessagePayload::Collided { with } => self.contact(station, *with),
            MessagePayload::Frob => {
                let mut effects: Vec<Effect> = Vec::new();
                let mut i: usize = 0;
                while i < carried.len()
                    invariant
                        i <= carried@.len(),
                        effects@ =~= Seq::new(
                            i as nat,
                            |k: int| Effect::Send { to: carried@[k], payload: MessagePayload::Recharge },
                        ),
                    decreases carried@.len() - i,
                {
                    effects.push(Effect::Send { to: carried[i], payload: MessagePayload::Recharge });
                    i += 1;
                }
                effects.push(Effect::PlayActivateSound { source: station });
                Effect::Combined { effects }
            },
            _ => Effect::NoEffect,
        }
    }
}

/// How long one contact partner stays silent after an item thuds against it.
pub const IMPACT_SOUND_COOLDOWN_NS: u64 = 150_000_000;

/// Per-partner rate limiting for a held item's impact sounds: each partner
/// it thudded against stays quiet for the cooldown.
pub struct ImpactSoundGuard {
    /// `(partner, nanoseconds before it may thud again)`, one entry per
    /// partner.
    pub cooldowns: Vec<(EntityId, u64)>,
}

/// Every partner appears at most once.
pub open spec fn guard_wf(cooldowns: Seq<(EntityId, u64)>) -> bool {
    forall|i: int, j: int| 0 <= i < j < cooldowns.len() ==> cooldowns[i].0 != cooldowns[j].0
}

/// Whether `with` is still cooling down.
pub open spec fn cooling(cooldowns: Seq<(EntityId, u64)>, with: EntityId) -> bool {
    exists|i: int| 0 <= i < cooldowns.len() && cooldowns[i].0 == with
}

/// The cooldowns after `elapsed_ns`: each runs down, and one that runs out
/// is dropped, the rest keeping their order.
pub open spec fn ticked_cooldowns(cooldowns: Seq<(EntityId, u64)>, elapsed_ns: u64) -> Seq<(EntityId, u64)>
    decreases cooldowns.len(),
{
    if cooldowns.len() == 0 {
        seq![]
    } else {
        let rest = ticked_cooldowns(cooldowns.drop_last(), elapsed_ns);
        let (who, left) = cooldowns.last();
        if left > elapsed_ns {
            rest.push((who, (left - elapsed_ns) as u64))
        } else {
            rest
        }
    }
}

proof fn lemma_ticked_keys(cooldowns: Seq<(EntityId, u64)>, elapsed_ns: u64)
    requires
        guard_wf(cooldowns),
    ensures
        guard_wf(ticked_cooldowns(cooldowns, elapsed_ns)),
        forall|k: int| 0 <= k < ticked_cooldowns(cooldowns, elapsed_ns).len() ==> cooling(cooldowns, #[trigger] ticked_cooldowns(cooldowns, elapsed_ns)[k].0),
    decreases cooldowns.len(),
{
    if cooldowns.len() > 0 {
        let init = cooldowns.drop_last();
        assert(guard_wf(init));
        lemma_ticked_keys(init, elapsed_ns);
        let rest = ticked_cooldowns(init, elapsed_ns);
        assert forall|k: int| 0 <= k < rest.len() implies cooling(cooldowns, #[trigger] rest[k].0) by {
            let i = choose|i: int| 0 <= i < init.len() && init[i].0 == rest[k].0;
            assert(cooldowns[i] == init[i]);
        }
        assert forall|k: int| 0 <= k < rest.len() implies #[trigger] rest[k].0 != cooldowns.last().0 by {
            let i = choose|i: int| 0 <= i < init.len() && init[i].0 == rest[k].0;
            assert(cooldowns[i] == init[i]);
        }
        let t = ticked_cooldowns(cooldowns, elapsed_ns);
        assert forall|k: int| 0 <= k < t.len() implies cooling(cooldowns, #[trigger] t[k].0) by {
            if k < rest.len() {
                assert(t[k] == rest[k]);
            } else {
                assert(cooldowns[cooldowns.len() - 1].0 == t[k].0);
            }
        }
    }
}

impl ImpactSoundGuard {
    pub fn new() -> (g: ImpactSoundGuard)
        ensures
            g.cooldowns@.len() == 0,
    {
        ImpactSoundGuard { cooldowns: Vec::new() }
    }

    /// A frame of `elapsed_ns`: every cooldown runs down, and an expired one
    /// lets its partner be heard again.
    pub fn tick(&mut self, elapsed_ns: u64)
        requires
            guard_wf(old(self).cooldowns@),
        ensures
            final(self).cooldowns@ == ticked_cooldowns(old(self).cooldowns@, elapsed_ns),
            guard_wf(final(self).cooldowns@),
    {
        let mut kept: Vec<(EntityId, u64)> = Vec::new();
        let mut i: usize = 0;
        while i < self.cooldowns.len()
            invariant
                i <= self.cooldowns@.len(),
                self.cooldowns@ == old(self).cooldowns@,
                kept@ == ticked_cooldowns(self.cooldowns@.take(i as int), elapsed_ns),
            decreases self.cooldowns@.len() - i,
        {
            let (who, left) = self.cooldowns[i];
            assert(self.cooldowns@.take(i as int + 1).drop_last() =~= self.cooldowns@.take(i as int));
            if left > elapsed_ns {
                kept.push((who, left - elapsed_ns));
            }
            i += 1;
        }
        assert(self.cooldowns@.take(i as int) =~= self.cooldowns@);
        proof {
            lemma_ticked_keys(old(self).cooldowns@, elapsed_ns);
        }
        self.cooldowns = kept;
    }

    /// Whether a contact with `with` should be heard: not while `with` is
    /// cooling down, and only when the item was closing on it fast enough
    /// (`closing_fast`, measured along the contact normal). A contact that is
    /// heard silences `with` for the cooldown.
    pub fn should_play(&mut self, with: EntityId, closing_fast: bool) -> (r: bool)
        requires
            guard_wf(old(self).cooldowns@),
        ensures
            r == (!cooling(old(self).cooldowns@, with) && closing_fast),
            r ==> final(self).cooldowns@ == old(self).cooldowns@.push((with, IMPACT_SOUND_COOLDOWN_NS)),
            !r ==> final(self).cooldowns@ == old(self).cooldowns@,
            guard_wf(final(self).cooldowns@),
    {
        let mut i: usize = 0;
        while i < self.cooldowns.len()
            invariant
                i <= self.cooldowns@.len(),
                self.cooldowns@ == old(self).cooldowns@,
                guard_wf(self.cooldowns@),
                forall|k: int| 0 <= k < i ==> self.cooldowns@[k].0 != with,
            decreases self.cooldowns@.len() - i,
        {
            if self.cooldowns[i].0 == with {
                return false;
            }
            i += 1;
        }
        if !closing_fast {
            return false;
        }
        self.cooldowns.push((with, IMPACT_SOUND_COOLDOWN_NS));
        true
    }
}

/// The audible half of a gun held inert in the hand: a block against the
/// level makes an impact sound, rate limited per partner; nothing else.
pub struct HeldItemImpactSound {
    pub guard: ImpactSoundGuard,
}

impl HeldItemImpactSound {
    pub fn new() -> (s: HeldItemImpactSound)
        ensures
            s.guard.cooldowns@.len() == 0,
    {
        HeldItemImpactSound { guard: ImpactSoundGuard::new() }
    }

    /// Whether a message makes the impact sound: only a contact, only while
    /// the gun is held inert (`held_inert`), and only as the guard allows.
    pub fn handle_message(&mut self, msg: &MessagePayload, held_inert: bool, closing_fast: bool) -> (play: bool)
        requires
            guard_wf(old(self).guard.cooldowns@),
        ensures
            play == (*msg matches MessagePayload::Collided { with } && held_inert && !cooling(
                old(self).guard.cooldowns@,
                with,
            ) && closing_fast),
            guard_wf(final(self).guard.cooldowns@),
    {
        let MessagePayload::Collided { with } = msg else {
            return false;
        };
        if !held_inert {
            return false;
        }
        self.guard.should_play(*with, closing_fast)
    }
}

/// The collision-type flags a projectile or fragile prop authors that the
/// impact script reads.
#[derive(Clone, Copy, Debug, PartialEq, Eq, Structural)]
pub struct CollisionFlags {
    pub slay_on_impact: bool,
    pub destroy_on_impact: bool,
    pub no_collision_sound: bool,
}

/// What a contact does to an impact object: it slays (or destroys) itself,
/// damages what it hit, spawns its impact effect (at most once per object),
/// and plays its impact sound unless it opts out.
#[derive(Debug, PartialEq, Eq)]
pub struct ImpactOutcome {
    /// Slay or destroy the object itself.
    pub end_self: Effect,
    /// The entity that takes the contact damage.
    pub damage_to: EntityId,
    /// The impact effect template to spawn, if any.
    pub spang: Option<i32>,
    pub play_sound: bool,
}

/// The impact script (`InternalCollisionType`): only an object flagged to
/// slay or destroy itself on impact deals contact damage, so two bouncing
/// creatures never hurt each other by touching.
pub struct InternalCollisionType {
    pub flags: CollisionFlags,
    /// Whether the impact effect has been spawned: a contact with several
    /// colliders at once queues several messages before the object goes.
    pub spang_spawned: bool,
}

impl InternalCollisionType {
    pub fn new(flags: CollisionFlags) -> (s: InternalCollisionType)
        ensures
            s.flags == flags,
            !s.spang_spawned,
    {
        InternalCollisionType { flags, spang_spawned: false }
    }

    /// A contact with `with`; `spang` is the impact effect the object's
    /// links choose for what it hit. `None` when the object is no impact
    /// object or the message is not a contact.
    pub fn handle_collision(&mut self, entity_id: EntityId, msg: &MessagePayload, spang: Option<i32>) -> (r: Option<
        ImpactOutcome,
    >)
        ensures
            match *msg {
                MessagePayload::Collided { with } if old(self).flags.slay_on_impact || old(self).flags.destroy_on_impact => {
                    &&& r matches Some(o) && {
                        &&& o.end_self == if old(self).flags.slay_on_impact {
                            Effect::SlayEntity { entity_id }
                        } else {
                            Effect::DestroyEntity { entity_id }
                        }
                        &&& o.damage_to == with
                        &&& o.spang == if old(self).spang_spawned { None } else { spang }
                        &&& o.play_sound == !old(self).flags.no_collision_sound
                    }
                    &&& final(self).spang_spawned == (old(self).spang_spawned || spang is Some)
                },
                _ => r is None && final(self).spang_spawned == old(self).spang_spawned,
            },
            final(self).flags == old(self).flags,
    {
        let with = match msg {
            MessagePayload::Collided { with } => *with,
            _ => return None,
        };
        if !(self.flags.slay_on_impact || self.flags.destroy_on_impact) {
            return None;
        }
        let end_self = if self.flags.slay_on_impact {
            Effect::SlayEntity { entity_id }
        } else {
            Effect::DestroyEntity { entity_id }
        };
        let spawn = if self.spang_spawned {
            None
        } else {
            spang
        };
        if spawn.is_some() {
            self.spang_spawned = true;
        }
        Some(ImpactOutcome { end_self, damage_to: with, spang: spawn, play_sound: !self.flags.no_collision_sound })
    }
}

/// How often the Localized Pyrokinesis aura stimulates what stands in it.
pub const IMMOLATE_PULSE_INTERVAL_MS: u32 = 1000;

/// The timer of the Localized Pyrokinesis (`Immolate`) aura: while the power
/// is active the aura pulses once per interval around the player.
pub struct ImmolatePulse {
    /// Milliseconds banked towards the next pulse.
    pub ms_since_pulse: u32,
}

impl ImmolatePulse {
    pub fn new() -> (p: ImmolatePulse)
        ensures
            p.ms_since_pulse == 0,
    {
        ImmolatePulse { ms_since_pulse: 0 }
    }

    /// A frame of `elapsed_ms`; whether the aura pulses now. Without an
    /// authored stim nothing happens. While the power is off the timer is held
    /// full, so a fresh cast pulses promptly. While it is on the timer banks at
    /// most two intervals (a long frame never fires a burst), and a pulse is
    /// due once a whole interval is banked; it is spent only when there is a
    /// player to center it on.
    pub fn tick(&mut self, stim_authored: bool, active: bool, has_player: bool, elapsed_ms: u32) -> (pulse: bool)
        ensures
            !stim_authored ==> !pulse && final(self).ms_since_pulse == old(self).ms_since_pulse,
            stim_authored && !active ==> !pulse && final(self).ms_since_pulse == IMMOLATE_PULSE_INTERVAL_MS,
            stim_authored && active ==> {
                let banked = if old(self).ms_since_pulse + elapsed_ms > 2 * IMMOLATE_PULSE_INTERVAL_MS {
                    2 * IMMOLATE_PULSE_INTERVAL_MS
                } else {
                    old(self).ms_since_pulse + elapsed_ms
                };
                &&& pulse == (banked >= IMMOLATE_PULSE_INTERVAL_MS && has_player)
                &&& final(self).ms_since_pulse == if pulse {
                    banked - IMMOLATE_PULSE_INTERVAL_MS
                } else {
                    banked
                }
            },
    {
        if !stim_authored {
            return false;
        }
        if !active {
            self.ms_since_pulse = IMMOLATE_PULSE_INTERVAL_MS;
            return false;
        }
        let cap: u64 = 2 * IMMOLATE_PULSE_INTERVAL_MS as u64;
        let sum: u64 = self.ms_since_pulse as u64 + elapsed_ms as u64;
        self.ms_since_pulse = if sum > cap {
            cap as u32
        } else {
            sum as u32
        };
        if self.ms_since_pulse < IMMOLATE_PULSE_INTERVAL_MS || !has_player {
            return false;
        }
        self.ms_since_pulse = self.ms_since_pulse - IMMOLATE_PULSE_INTERVAL_MS;
        true
    }
}

/// What an implant message asks of the mission.
#[derive(Clone, Copy, Debug, PartialEq, Eq, Structural)]
pub enum ImplantAction {
    Nothing,
    /// Switch the implant on or off.
    Toggle,
    /// Take the implant out of its slot.
    Unequip,
    /// Recharge the implant's energy.
    Recharge,
}

/// What a frame of an equipped implant comes to.
#[derive(Clone, Copy, Debug, PartialEq, Eq, Structural)]
pub enum ImplantStep {
    Nothing,
    /// It is no longer among the equipped implants: take it out.
    Unequip,
    /// Drain this many authored drain amounts from its energy.
    Drain(u64),
}

/// An implant's energy drain: one authored amount every authored interval
/// while it is equipped and has energy, the timer's phase kept across saves
/// and frames.
pub struct Implant {
    /// Milliseconds banked towards the next drain.
    pub elapsed_ms: u64,
}

impl Implant {
    pub fn new() -> (s: Implant)
        ensures
            s.elapsed_ms == 0,
    {
        Implant { elapsed_ms: 0 }
    }

    /// Frob toggles the implant; dropping it unequips it and restarts the
    /// timer; a recharge recharges it; anything else does nothing.
    pub fn handle_message(&mut self, msg: &MessagePayload) -> (a: ImplantAction)
        ensures
            *msg == MessagePayload::Frob ==> a == ImplantAction::Toggle && final(self).elapsed_ms == old(self).elapsed_ms,
            *msg == MessagePayload::Drop ==> a == ImplantAction::Unequip && final(self).elapsed_ms == 0,
            *msg == MessagePayload::Recharge ==> a == ImplantAction::Recharge && final(self).elapsed_ms
                == old(self).elapsed_ms,
            !(*msg == MessagePayload::Frob || *msg == MessagePayload::Drop || *msg == MessagePayload::Recharge) ==> a
                == ImplantAction::Nothing && final(self).elapsed_ms == old(self).elapsed_ms,
    {
        match msg {
            MessagePayload::Frob => ImplantAction::Toggle,
            MessagePayload::Drop => {
                self.elapsed_ms = 0;
                ImplantAction::Unequip
            },
            MessagePayload::Recharge => ImplantAction::Recharge,
            _ => ImplantAction::Nothing,
        }
    }

    /// A frame of `elapsed_ms`. An implant out of its slot restarts its timer
    /// and does nothing; one in its slot but no longer equipped restarts it and
    /// is taken out; one without energy, or whose drain is not authored as
    /// positive (`rate_ms` of zero, or `amount_ok` false), waits; otherwise the
    /// time banks, and each whole interval banked drains one amount, the rest
    /// kept for the next frame.
    pub fn update(
        &mut self,
        in_slot: bool,
        equipped: bool,
        has_energy: bool,
        rate_ms: u64,
        amount_ok: bool,
        elapsed_ms: u64,
    ) -> (step: ImplantStep)
        ensures
            !in_slot ==> step == ImplantStep::Nothing && final(self).elapsed_ms == 0,
            in_slot && !equipped ==> step == ImplantStep::Unequip && final(self).elapsed_ms == 0,
            in_slot && equipped && (!has_energy || rate_ms == 0 || !amount_ok) ==> step == ImplantStep::Nothing
                && final(self).elapsed_ms == old(self).elapsed_ms,
            in_slot && equipped && has_energy && rate_ms > 0 && amount_ok ==> {
                let banked = if old(self).elapsed_ms + elapsed_ms > u64::MAX {
                    u64::MAX as int
                } else {
                    old(self).elapsed_ms + elapsed_ms
                };
                &&& final(self).elapsed_ms == banked % (rate_ms as int)
                &&& step == if banked / (rate_ms as int) > 0 {
                    ImplantStep::Drain((banked / (rate_ms as int)) as u64)
                } else {
                    ImplantStep::Nothing
                }
            },
    {
        if !in_slot {
            self.elapsed_ms = 0;
            return ImplantStep::Nothing;
        }
        if !equipped {
            self.elapsed_ms = 0;
            return ImplantStep::Unequip;
        }
        if !has_energy || rate_ms == 0 || !amount_ok {
            return ImplantStep::Nothing;
        }
        let banked = self.elapsed_ms.saturating_add(elapsed_ms);
        let ticks = banked / rate_ms;
        self.elapsed_ms = banked % rate_ms;
        if ticks > 0 {
            ImplantStep::Drain(ticks)
        } else {
            ImplantStep::Nothing
        }
    }
}

/// What a frame of an egg's goo cloud comes to.
#[derive(Clone, Copy, Debug, PartialEq, Eq, Structural)]
pub enum CloudStep {
    Nothing,
    /// Emit the cloud's one radius stimulus, at full intensity.
    Fire,
    /// The longest particle is spent: remove the cloud.
    Destroy,
}

/// An egg's goo cloud: one immediate pulse of its authored stimulus, then the
/// entity lives as long as its longest particle.
pub struct EggGooCloud {
    pub fired: bool,
    /// Milliseconds of particle life left, once known.
    pub remaining_ms: Option<i64>,
}

impl EggGooCloud {
    pub fn new() -> (c: EggGooCloud)
        ensures
            !c.fired,
            c.remaining_ms is None,
    {
        EggGooCloud { fired: false, remaining_ms: None }
    }

    /// A frame of `elapsed_ms`. `particle_life_ms` is the longest authored
    /// particle life (`None` without launch data, when nothing happens until
    /// there is some); `has_position` whether the cloud can be placed. The
    /// first frame with both fires the pulse; each later frame runs the life
    /// down and removes the cloud once it is spent.
    pub fn update(&mut self, particle_life_ms: Option<i64>, has_position: bool, elapsed_ms: u32) -> (step: CloudStep)
        ensures
            old(self).remaining_ms is None && particle_life_ms is None ==> step == CloudStep::Nothing
                && final(self).fired == old(self).fired && final(self).remaining_ms is None,
            ({
                let life = match old(self).remaining_ms {
                    Some(r) => Some(r),
                    None => match particle_life_ms {
                        Some(l) => Some(if l < 0 { 0i64 } else { l }),
                        None => None,
                    },
                };
                life matches Some(l) ==> if !old(self).fired {
                    &&& final(self).remaining_ms == Some(l)
                    &&& has_position ==> step == CloudStep::Fire && final(self).fired
                    &&& !has_position ==> step == CloudStep::Nothing && !final(self).fired
                } else {
                    let left = if l - elapsed_ms < i64::MIN { i64::MIN as int } else { l - elapsed_ms };
                    &&& final(self).fired
                    &&& final(self).remaining_ms == Some(left as i64)
                    &&& step == if left <= 0 { CloudStep::Destroy } else { CloudStep::Nothing }
                }
            }),
    {
        let life = match self.remaining_ms {
            Some(r) => r,
            None => match particle_life_ms {
                Some(l) => {
                    let l = if l < 0 {
                        0
                    } else {
                        l
                    };
                    self.remaining_ms = Some(l);
                    l
                },
                None => return CloudStep::Nothing,
            },
        };
        if !self.fired {
            if !has_position {
                return CloudStep::Nothing;
            }
            self.fired = true;
            return CloudStep::Fire;
        }
        let left = if life < i64::MIN + elapsed_ms as i64 {
            i64::MIN
        } else {
            life - elapsed_ms as i64
        };
        self.remaining_ms = Some(left);
        if left <= 0 {
            CloudStep::Destroy
        } else {
            CloudStep::Nothing
        }
    }
}

/// An explosion's blast: it goes off once, on the frame after it spawns.
pub struct InternalExplosion {
    pub has_fired: bool,
}

impl InternalExplosion {
    pub fn new() -> (r: InternalExplosion)
        ensures
            !r.has_fired,
    {
        InternalExplosion { has_fired: false }
    }

    /// Whether this frame is the one the blast goes off on: true the first
    /// time, false ever after.
    pub fn fires_now(&mut self) -> (r: bool)
        ensures
            r == !old(self).has_fired,
            final(self).has_fired,
    {
        if self.has_fired {
            return false;
        }
        self.has_fired = true;
        true
    }
}

/// A quest-bit pickup: frobbing it sets its quest bit, and takes it into the
/// backpack when it is an item that can be taken (and not a key source,
/// whose keycard script consumes it); with no backpack it is destroyed.
pub struct FrobQB {}

impl FrobQB {
    pub fn new() -> (r: FrobQB) {
        FrobQB {}
    }

    /// `quest_bit` is the bit the object sets (`None` when it names none,
    /// which does nothing); `takeable` whether it can be grabbed;
    /// `key_source` whether a keycard script consumes it; `backpack` the
    /// player's inventory, if there is a player.
    pub fn handle_message(
        &self,
        entity_id: EntityId,
        msg: &MessagePayload,
        quest_bit: Option<(String, QuestBitValue)>,
        takeable: bool,
        key_source: bool,
        backpack: Option<EntityId>,
    ) -> (e: Effect)
        ensures
            match quest_bit {
                Some((name, value)) if *msg == MessagePayload::Frob => {
                    let set = Effect::SetQuestBit { quest_bit_name: name, quest_bit_value: value };
                    if takeable && !key_source {
                        e matches Effect::Combined { effects } && effects@ == seq![
                            set,
                            match backpack {
                                Some(b) => Effect::DropEntityInfo { parent_entity_id: b, dropped_entity_id: entity_id },
                                None => Effect::DestroyEntity { entity_id },
                            },
                        ]
                    } else {
                        e == set
                    }
                },
                _ => e is NoEffect,
            },
    {
        if *msg != MessagePayload::Frob {
            return Effect::NoEffect;
        }
        let Some((name, value)) = quest_bit else {
            return Effect::NoEffect;
        };
        let set = Effect::SetQuestBit { quest_bit_name: name, quest_bit_value: value };
        if takeable && !key_source {
            let then = match backpack {
                Some(b) => Effect::DropEntityInfo { parent_entity_id: b, dropped_entity_id: entity_id },
                None => Effect::DestroyEntity { entity_id },
            };
            let mut effects: Vec<Effect> = Vec::new();
            let ghost gs = set;
            let ghost gt = then;
            effects.push(set);
            effects.push(then);
            assert(effects@ =~= seq![gs, gt]);
            Effect::Combined { effects }
        } else {
            set
        }
    }
}

/// The original's point-vs-not-special rule for one pair: two models that
/// both set `point_vs_not_special` and are both non-special never collide.
pub fn passes_through(
    point_vs_not_special: bool,
    special: bool,
    other_point_vs_not_special: bool,
    other_special: bool,
) -> (r: bool)
    ensures
        r == (point_vs_not_special && other_point_vs_not_special && !special && !other_special),
{
    point_vs_not_special && other_point_vs_not_special && !special && !other_special
}

/// The glob a goo egg lobs: it splats (slays itself on contact, delivering
/// its contact stim) on its first contact with something it does not pass
/// through, once.
pub struct GooProjectile {
    pub impact_handled: bool,
}

impl GooProjectile {
    pub fn new() -> (r: GooProjectile)
        ensures
            !r.impact_handled,
    {
        GooProjectile { impact_handled: false }
    }

    /// Whether this message is the glob's splat: a contact it does not pass
    /// through, the first one.
    pub fn splats(&mut self, msg: &MessagePayload, passes: bool) -> (r: bool)
        ensures
            r == (*msg is Collided && !passes && !old(self).impact_handled),
            final(self).impact_handled == (old(self).impact_handled || r),
    {
        if !matches!(msg, MessagePayload::Collided { .. }) || passes || self.impact_handled {
            return false;
        }
        self.impact_handled = true;
        true
    }
}

/// Whether a character is an ASCII digit.
pub open spec fn is_ascii_digit(c: char) -> bool {
    '0' <= c <= '9'
}

/// The last ASCII digit of a name, if it has one.
pub open spec fn last_digit(s: Seq<char>) -> Option<char>
    decreases s.len(),
{
    if s.len() == 0 {
        None
    } else if is_ascii_digit(s.last()) {
        Some(s.last())
    } else {
        last_digit(s.drop_last())
    }
}

/// A holo rumbler of the CS9 show: turned on, it teleports to the
/// `RumblerLoc<n>` marker of its own number; turned off, to the safe marker.
pub struct CS9HoloRumbler {}

impl CS9HoloRumbler {
    pub fn new() -> (r: CS9HoloRumbler) {
        CS9HoloRumbler {}
    }

    /// `Rumbler3` goes to `RumblerLoc3`: the marker named by the last digit
    /// of the rumbler's own name.
    pub fn loc_marker_name(sym_name: &str) -> (r: Option<String>)
        ensures
            match last_digit(sym_name@) {
                Some(d) => r matches Some(m) && m@ == "RumblerLoc"@.push(d),
                None => r is None,
            },
    {
        let n = sym_name.unicode_len();
        let mut i: usize = n;
        assert(sym_name@.take(n as int) =~= sym_name@);
        while i > 0
            invariant
                i <= n,
                n == sym_name@.len(),
                last_digit(sym_name@) == last_digit(sym_name@.take(i as int)),
            decreases i,
        {
            let c = sym_name.get_char(i - 1);
            assert(sym_name@.take(i as int).drop_last() =~= sym_name@.take(i as int - 1));
            if '0' <= c && c <= '9' {
                let mut marker = String::from_str("RumblerLoc");
                crate::text::push_char(&mut marker, c);
                return Some(marker);
            }
            i -= 1;
        }
        None
    }

    /// The marker a message sends the rumbler to, if any: its own marker on
    /// `TurnOn` (when its name has a digit), `SafeTeleportLoc` on `TurnOff`.
    pub fn teleport_target(&self, msg: &MessagePayload, sym_name: Option<&str>) -> (r: Option<String>)
        ensures
            *msg is TurnOff ==> (r matches Some(m) && m@ == "SafeTeleportLoc"@),
            *msg is TurnOn ==> match sym_name {
                Some(n) => match last_digit(n@) {
                    Some(d) => r matches Some(m) && m@ == "RumblerLoc"@.push(d),
                    None => r is None,
                },
                None => r is None,
            },
            !(*msg is TurnOn || *msg is TurnOff) ==> r is None,
    {
        match msg {
            MessagePayload::TurnOn { .. } => match sym_name {
                Some(n) => Self::loc_marker_name(n),
                None => None,
            },
            MessagePayload::TurnOff { .. } => Some(String::from_str("SafeTeleportLoc")),
            _ => None,
        }
    }
}

/// A trap that, tripped, destroys every object it teleport-links to.
pub struct TrapDestroyTeleport {}

impl TrapDestroyTeleport {
    pub fn new() -> (r: TrapDestroyTeleport) {
        TrapDestroyTeleport {}
    }

    /// `TurnOn`, or something entering its sensor, destroys each of
    /// `teleport_targets`; nothing else does anything.
    pub fn handle_message(&self, msg: &MessagePayload, teleport_targets: &Vec<EntityId>) -> (e: Effect)
        ensures
            (*msg is TurnOn || *msg is SensorBeginIntersect) ==> (e matches Effect::Combined { effects }
                && effects@.len() == teleport_targets@.len() && forall|i: int|
                0 <= i < effects@.len() ==> #[trigger] effects@[i] == (Effect::DestroyEntity {
                    entity_id: teleport_targets@[i],
                })),
            !(*msg is TurnOn || *msg is SensorBeginIntersect) ==> e is NoEffect,
    {
        match msg {
            MessagePayload::TurnOn { .. } | MessagePayload::SensorBeginIntersect { .. } => Effect::Combined {
                effects: destroy_each(teleport_targets),
            },
            _ => Effect::NoEffect,
        }
    }
}

/// The CS9 show's seat lock, which freezes players only in multiplayer; in a
/// single-player game it does nothing.
pub struct SitDownRightNowMP {}

impl SitDownRightNowMP {
    pub fn new() -> (r: SitDownRightNowMP) {
        SitDownRightNowMP {}
    }

    /// Nothing, whatever the message.
    pub fn handle_message(&self, msg: &MessagePayload) -> (e: Effect)
        ensures
            e is NoEffect,
    {
        Effect::NoEffect
    }
}

/// The Earth mission's title card when the string table has none.
pub const FALLBACK_CARD: &'static str = "4 Years Earlier\nRamsey Recruitment Ctr.";

/// The string-table key of the Earth title card.
pub const CARD_KEY: &'static str = "earthtext0";

/// The character-generation strings the scripts read: the Earth title card's
/// entry, when the table has one.
pub struct CharGenStrings {
    pub card_entry: Option<String>,
}

impl CharGenStrings {
    /// The Earth mission's title card: the table's entry, else the shipped
    /// English text.
    pub fn card(&self) -> (r: String)
        ensures
            r@ == match self.card_entry {
                Some(c) => c@,
                None => FALLBACK_CARD@,
            },
    {
        match &self.card_entry {
            Some(c) => c.clone(),
            None => String::from_str(FALLBACK_CARD),
        }
    }
}

/// The Earth title card is scheduled this long into the mission.
pub const CARD_SHOW_DELAY_MS: u32 = 100;

/// The card comes off this long into the mission, whenever it went up.
pub const CARD_REMOVE_AT_MS: u32 = 7000;

/// The title card the Earth mission opens with. The delay before it is a
/// countdown; once the card has been shown the countdown is gone, so a
/// restored script does not show it again.
pub struct EarthText {
    /// What is left of the delay, or `None` once the card has been shown
    /// (or before the script is initialized).
    pub delay_remaining_ms: Option<u32>,
}

impl EarthText {
    pub fn new() -> (r: EarthText)
        ensures
            r.delay_remaining_ms is None,
    {
        EarthText { delay_remaining_ms: None }
    }

    /// The mission starts: the card is due after the show delay.
    pub fn initialize(&mut self)
        ensures
            final(self).delay_remaining_ms == Some(CARD_SHOW_DELAY_MS),
    {
        self.delay_remaining_ms = Some(CARD_SHOW_DELAY_MS);
    }

    /// A frame of `elapsed_ms` passes. While the delay runs, nothing shows;
    /// the frame it runs out on shows the card once, for what is left of the
    /// time until its removal: a late frame comes off the card, and a frame
    /// past the removal shows nothing at all.
    pub fn update(&mut self, elapsed_ms: u64, strings: &CharGenStrings) -> (e: Effect)
        ensures
            match old(self).delay_remaining_ms {
                None => final(self).delay_remaining_ms is None && e is NoEffect,
                Some(r) => if elapsed_ms < r {
                    final(self).delay_remaining_ms == Some((r - elapsed_ms) as u32) && e is NoEffect
                } else {
                    &&& final(self).delay_remaining_ms is None
                    &&& elapsed_ms - r > CARD_REMOVE_AT_MS - CARD_SHOW_DELAY_MS ==> e is NoEffect
                    &&& elapsed_ms - r <= CARD_REMOVE_AT_MS - CARD_SHOW_DELAY_MS ==> (e matches Effect::ShowBanner {
                        text,
                        duration_ms,
                    } && text@ == match strings.card_entry {
                        Some(c) => c@,
                        None => FALLBACK_CARD@,
                    } && duration_ms == (CARD_REMOVE_AT_MS - CARD_SHOW_DELAY_MS) - (elapsed_ms - r))
                },
            },
    {
        let Some(remaining) = self.delay_remaining_ms else {
            return Effect::NoEffect;
        };
        if elapsed_ms < remaining as u64 {
            self.delay_remaining_ms = Some((remaining as u64 - elapsed_ms) as u32);
            return Effect::NoEffect;
        }
        self.delay_remaining_ms = None;
        let overshoot: u64 = elapsed_ms - remaining as u64;
        let window: u32 = CARD_REMOVE_AT_MS - CARD_SHOW_DELAY_MS;
        if overshoot > window as u64 {
            return Effect::NoEffect;
        }
        Effect::ShowBanner { text: strings.card(), duration_ms: window - overshoot as u32 }
    }
}

/// The hazard scripts: radiation rooms, toxin patches, cleansing and
/// environment triggers, the engine-core cleanup, and hazard armor.
#[derive(Clone, Copy, Debug, PartialEq, Eq, Structural)]
pub enum HazardObject {
    Room,
    ToxinPatch,
    /// Clears toxin (`true`) or radiation (`false`).
    Cleanse(bool),
    Environment,
    EngineCleanup,
    Armor,
}

/// What the engine-core cleanup acts on: the objects of its consume class it
/// slays, and the core doors it unlocks.
pub struct EngineCleanupTargets {
    pub slain: Vec<EntityId>,
    pub core_doors: Vec<EntityId>,
}

/// The effects of the engine-core cleanup, in order: clear the radiation,
/// set `EngineRadClear`, slay the consume class, unlock the core doors, then
/// the object's use message.
pub open spec fn engine_cleanup_holds(effects: Seq<Effect>, targets: EngineCleanupTargets, use_message: Effect) -> bool {
    let slain = targets.slain@;
    let doors = targets.core_doors@;
    &&& effects.len() == 3 + slain.len() + doors.len()
    &&& effects[0] == Effect::ClearEnvironmentalRadiation
    &&& effects[1] matches Effect::SetQuestBit { quest_bit_name, quest_bit_value } && quest_bit_name@
        == "EngineRadClear"@ && quest_bit_value == QuestBitValue::Incomplete
    &&& forall|i: int| 0 <= i < slain.len() ==> #[trigger] effects[2 + i] == (Effect::SlayEntity { entity_id: slain[i] })
    &&& forall|i: int|
        0 <= i < doors.len() ==> #[trigger] effects[2 + slain.len() + i] == (Effect::SetLocked {
            entity_id: doors[i],
            locked: false,
        })
    &&& effects.last() == use_message
}

impl HazardObject {
    /// What the hazard does with a message. A room reports the player (and
    /// only the player) entering or leaving it; a toxin patch, frobbed,
    /// removes 2 toxin levels (2.4 with Pharmo-Friendly); the cleansing,
    /// environment and cleanup triggers act on `TurnOn`; hazard armor toggles
    /// on a frob. `player` is the player entity, if any; `use_message` what
    /// the object's use message does.
    pub fn handle_message(
        &self,
        entity_id: EntityId,
        msg: &MessagePayload,
        player: Option<EntityId>,
        pharmo_friendly: bool,
        cleanup: &EngineCleanupTargets,
        use_message: Effect,
    ) -> (e: Effect)
        ensures
            match *self {
                HazardObject::Room => match *msg {
                    MessagePayload::SensorBeginIntersect { with } if player == Some(with) => e == (
                    Effect::RadiationRoom { entity_id, entered: true }),
                    MessagePayload::SensorEndIntersect { with } if player == Some(with) => e == (
                    Effect::RadiationRoom { entity_id, entered: false }),
                    _ => e is NoEffect,
                },
                HazardObject::ToxinPatch => if *msg == MessagePayload::Frob {
                    e == (Effect::UseToxinPatch {
                        entity_id,
                        amount_tenths: if pharmo_friendly {
                            24i32
                        } else {
                            20i32
                        },
                    })
                } else {
                    e is NoEffect
                },
                HazardObject::Cleanse(toxin) => if *msg is TurnOn {
                    e == (Effect::ClearHazard { toxin })
                } else {
                    e is NoEffect
                },
                HazardObject::Environment => if *msg is TurnOn {
                    e == Effect::ClearEnvironmentalRadiation
                } else {
                    e is NoEffect
                },
                HazardObject::EngineCleanup => if *msg is TurnOn {
                    e matches Effect::Combined { effects } && engine_cleanup_holds(effects@, *cleanup, use_message)
                } else {
                    e is NoEffect
                },
                HazardObject::Armor => if *msg == MessagePayload::Frob {
                    e == (Effect::ToggleHazardArmor { entity_id })
                } else {
                    e is NoEffect
                },
            },
    {
        match self {
            HazardObject::Room => {
                let (with, entered) = match msg {
                    MessagePayload::SensorBeginIntersect { with } => (*with, true),
                    MessagePayload::SensorEndIntersect { with } => (*with, false),
                    _ => return Effect::NoEffect,
                };
                if player == Some(with) {
                    Effect::RadiationRoom { entity_id, entered }
                } else {
                    Effect::NoEffect
                }
            },
            HazardObject::ToxinPatch if *msg == MessagePayload::Frob => Effect::UseToxinPatch {
                entity_id,
                amount_tenths: if pharmo_friendly {
                    24
                } else {
                    20
                },
            },
            HazardObject::Cleanse(toxin) if matches!(msg, MessagePayload::TurnOn { .. }) => Effect::ClearHazard {
                toxin: *toxin,
            },
            HazardObject::EngineCleanup if matches!(msg, MessagePayload::TurnOn { .. }) => {
                let mut effects: Vec<Effect> = Vec::new();
                effects.push(Effect::ClearEnvironmentalRadiation);
                effects.push(
                    Effect::SetQuestBit {
                        quest_bit_name: String::from_str("EngineRadClear"),
                        quest_bit_value: QuestBitValue::Incomplete,
                    },
                );
                let ghost head = effects@;
                let mut i: usize = 0;
                while i < cleanup.slain.len()
                    invariant
                        i <= cleanup.slain@.len(),
                        effects@.len() == 2 + i,
                        effects@.take(2) == head,
                        forall|k: int|
                            0 <= k < i ==> #[trigger] effects@[2 + k] == (Effect::SlayEntity {
                                entity_id: cleanup.slain@[k],
                            }),
                    decreases cleanup.slain@.len() - i,
                {
                    effects.push(Effect::SlayEntity { entity_id: cleanup.slain[i] });
                    assert(effects@.take(2) =~= head);
                    i += 1;
                }
                let n = cleanup.slain.len();
                let mut j: usize = 0;
                while j < cleanup.core_doors.len()
                    invariant
                        j <= cleanup.core_doors@.len(),
                        n == cleanup.slain@.len(),
                        effects@.len() == 2 + n + j,
                        effects@.take(2) == head,
                        forall|k: int|
                            0 <= k < n ==> #[trigger] effects@[2 + k] == (Effect::SlayEntity {
                                entity_id: cleanup.slain@[k],
                            }),
                        forall|k: int|
                            0 <= k < j ==> #[trigger] effects@[2 + n + k] == (Effect::SetLocked {
                                entity_id: cleanup.core_doors@[k],
                                locked: false,
                            }),
                    decreases cleanup.core_doors@.len() - j,
                {
                    effects.push(Effect::SetLocked { entity_id: cleanup.core_doors[j], locked: false });
                    assert(effects@.take(2) =~= head);
                    j += 1;
                }
                let ghost before_use = effects@;
                let ghost um = use_message;
                effects.push(use_message);
                proof {
                    assert(effects@[0] == head[0]);
                    assert(effects@[1] == head[1]);
                    assert forall|k: int| 0 <= k < n implies #[trigger] effects@[2 + k] == (Effect::SlayEntity {
                        entity_id: cleanup.slain@[k],
                    }) by {
                        assert(effects@[2 + k] == before_use[2 + k]);
                    }
                    assert forall|k: int|
                        0 <= k < cleanup.core_doors@.len() implies #[trigger] effects@[2 + n + k] == (
                    Effect::SetLocked { entity_id: cleanup.core_doors@[k], locked: false }) by {
                        assert(effects@[2 + n + k] == before_use[2 + n + k]);
                    }
                    assert(effects@.last() == um);
                }
                Effect::Combined { effects }
            },
            HazardObject::Environment if matches!(msg, MessagePayload::TurnOn { .. }) => {
                Effect::ClearEnvironmentalRadiation
            },
            HazardObject::Armor if *msg == MessagePayload::Frob => Effect::ToggleHazardArmor { entity_id },
            _ => Effect::NoEffect,
        }
    }
}

} // verus!
