//! Players: their statistics, skills and temporary effects.
use vstd::prelude::*;

use crate::model::{DugoutPlace, PlayerID, Position, Skill, TeamType, TemporarySkill};

verus! {

/// What a player is, apart from where he stands.
#[derive(Clone, Debug)]
pub struct PlayerStats {
    pub team: TeamType,
    /// Armour value, without temporary bonuses.
    pub av: u8,
    pub skills: Vec<Skill>,
    /// Skills held until the end of the drive.
    pub temporary_skills: Vec<TemporarySkill>,
    /// Armour bonus held until the end of the drive.
    pub temporary_av: u8,
}

/// The mathematical value of [`PlayerStats`].
#[verifier::ext_equal]
pub struct PlayerStatsView {
    pub team: TeamType,
    pub av: u8,
    pub skills: Seq<Skill>,
    pub temporary_skills: Seq<TemporarySkill>,
    pub temporary_av: u8,
}

impl View for PlayerStats {
    type V = PlayerStatsView;

    open spec fn view(&self) -> PlayerStatsView {
        PlayerStatsView {
            team: self.team,
            av: self.av,
            skills: self.skills@,
            temporary_skills: self.temporary_skills@,
            temporary_av: self.temporary_av,
        }
    }
}

impl PlayerStatsView {
    /// The armour value in play: base and temporary bonus, capped at `u8::MAX`.
    pub open spec fn effective_av(self) -> int {
        if self.av + self.temporary_av > u8::MAX {
            u8::MAX as int
        } else {
            self.av + self.temporary_av
        }
    }

    pub open spec fn has_skill(self, skill: Skill) -> bool {
        self.skills.contains(skill)
    }

    pub open spec fn has_temporary_skill(self, skill: TemporarySkill) -> bool {
        self.temporary_skills.contains(skill)
    }

    /// These statistics with `skill` held until the end of the drive.
    pub open spec fn with_temporary_skill(self, skill: TemporarySkill) -> PlayerStatsView {
        if self.temporary_skills.contains(skill) {
            self
        } else {
            PlayerStatsView { temporary_skills: self.temporary_skills.push(skill), ..self }
        }
    }

    /// These statistics with `bonus` more armour until the end of the drive.
    pub open spec fn with_temporary_av(self, bonus: u8) -> PlayerStatsView {
        PlayerStatsView { temporary_av: (self.temporary_av + bonus) as u8, ..self }
    }

    /// These statistics with every temporary effect gone.
    pub open spec fn without_temporary_effects(self) -> PlayerStatsView {
        PlayerStatsView { temporary_skills: Seq::empty(), temporary_av: 0, ..self }
    }

    /// No temporary skill and no temporary armour.
    pub open spec fn has_no_temporary_effects(self) -> bool {
        self.temporary_skills.len() == 0 && self.temporary_av == 0
    }

    /// A fresh lineman of `team`.
    pub open spec fn lineman(team: TeamType) -> PlayerStatsView {
        PlayerStatsView {
            team,
            av: 8,
            skills: Seq::empty(),
            temporary_skills: Seq::empty(),
            temporary_av: 0,
        }
    }
}

impl PlayerStats {
    /// A lineman of `team`: armour 8, no skills.
    pub fn new_lineman(team: TeamType) -> (stats: PlayerStats)
        ensures
            stats@ == PlayerStatsView::lineman(team),
    {
        PlayerStats {
            team,
            av: 8,
            skills: Vec::new(),
            temporary_skills: Vec::new(),
            temporary_av: 0,
        }
    }

    /// The armour value in play, temporary bonus included.
    pub fn av(&self) -> (av: u8)
        ensures
            av == self@.effective_av(),
    {
        if self.av > u8::MAX - self.temporary_av {
            u8::MAX
        } else {
            self.av + self.temporary_av
        }
    }

    pub fn has_skill(&self, skill: Skill) -> (has: bool)
        ensures
            has == self@.has_skill(skill),
    {
        let mut i: usize = 0;
        while i < self.skills.len()
            invariant
                i <= self.skills.len(),
                forall|j: int| 0 <= j < i ==> self.skills@[j] != skill,
            decreases self.skills.len() - i,
        {
            if self.skills[i] == skill {
                assert(self.skills@[i as int] == skill);
                return true;
            }
            i = i + 1;
        }
        false
    }

    /// Gives the player `skill` for good; a skill already held is not added twice.
    pub fn give_skill(&mut self, skill: Skill)
        ensures
            final(self)@ == (PlayerStatsView {
                skills: if old(self)@.skills.contains(skill) {
                    old(self)@.skills
                } else {
                    old(self)@.skills.push(skill)
                },
                ..old(self)@
            }),
    {
        if !self.has_skill(skill) {
            self.skills.push(skill);
        }
    }

    pub fn has_temporary_skill(&self, skill: TemporarySkill) -> (has: bool)
        ensures
            has == self@.has_temporary_skill(skill),
    {
        let mut i: usize = 0;
        while i < self.temporary_skills.len()
            invariant
                i <= self.temporary_skills.len(),
                forall|j: int| 0 <= j < i ==> self.temporary_skills@[j] != skill,
            decreases self.temporary_skills.len() - i,
        {
            if self.temporary_skills[i] == skill {
                assert(self.temporary_skills@[i as int] == skill);
                return true;
            }
            i = i + 1;
        }
        false
    }

    /// Gives the player `skill` until the end of the drive.
    pub fn give_temporary_skill(&mut self, skill: TemporarySkill)
        ensures
            final(self)@ == old(self)@.with_temporary_skill(skill),
    {
        if !self.has_temporary_skill(skill) {
            self.temporary_skills.push(skill);
        }
    }

    /// Raises the armour value by `bonus` until the end of the drive.
    pub fn add_temporary_av(&mut self, bonus: u8)
        requires
            old(self).temporary_av + bonus <= u8::MAX,
        ensures
            final(self)@ == old(self)@.with_temporary_av(bonus),
    {
        self.temporary_av = self.temporary_av + bonus;
    }

    /// Ends every temporary effect.
    pub fn clear_temporary_effects(&mut self)
        ensures
            final(self)@ == old(self)@.without_temporary_effects(),
    {
        self.temporary_skills = Vec::new();
        self.temporary_av = 0;
    }
}

/// A player standing on the pitch.
#[derive(Clone, Debug)]
pub struct FieldPlayer {
    pub id: PlayerID,
    pub position: Position,
    pub stats: PlayerStats,
}

/// The mathematical value of [`FieldPlayer`].
#[verifier::ext_equal]
pub struct FieldPlayerView {
    pub id: PlayerID,
    pub position: Position,
    pub stats: PlayerStatsView,
}

impl View for FieldPlayer {
    type V = FieldPlayerView;

    open spec fn view(&self) -> FieldPlayerView {
        FieldPlayerView { id: self.id, position: self.position, stats: self.stats@ }
    }
}

impl FieldPlayer {
    pub fn has_skill(&self, skill: Skill) -> (has: bool)
        ensures
            has == self@.stats.has_skill(skill),
    {
        self.stats.has_skill(skill)
    }

    pub fn has_temporary_skill(&self, skill: TemporarySkill) -> (has: bool)
        ensures
            has == self@.stats.has_temporary_skill(skill),
    {
        self.stats.has_temporary_skill(skill)
    }
}

/// A player off the pitch.
#[derive(Clone, Debug)]
pub struct DugoutPlayer {
    pub id: PlayerID,
    pub place: DugoutPlace,
    pub stats: PlayerStats,
}

/// The mathematical value of [`DugoutPlayer`].
#[verifier::ext_equal]
pub struct DugoutPlayerView {
    pub id: PlayerID,
    pub place: DugoutPlace,
    pub stats: PlayerStatsView,
}

impl View for DugoutPlayer {
    type V = DugoutPlayerView;

    open spec fn view(&self) -> DugoutPlayerView {
        DugoutPlayerView { id: self.id, place: self.place, stats: self.stats@ }
    }
}

} // verus!
