//! The gamification contract's setup: its error codes, the kinds of
//! achievements, challenges, guilds, seasons and recognitions, the default
//! settings, and the one-time initialization. Account addresses are held as
//! their text form.
use vstd::prelude::*;

verus! {

/// What can go wrong in a gamification operation.
#[derive(Clone, Copy, Debug, PartialEq, Eq, Structural)]
pub enum GamificationError {
    /// Contract has already been initialized and cannot be re-initialized.
    AlreadyInitialized,
    /// Contract has not been initialized yet.
    NotInitialized,
    /// Caller does not have the required admin or ownership privileges.
    Unauthorized,
    /// A token or XP amount is zero or otherwise invalid.
    InvalidAmount,
    /// One or more input fields fail validation.
    InvalidInput,
    /// The requested resource (achievement, guild, season, etc.) was not found.
    NotFound,
    /// A resource with the same identifier already exists.
    AlreadyExists,
    /// The challenge has reached its maximum participant count.
    ChallengeFull,
    /// The challenge is not currently active.
    ChallengeInactive,
    /// The challenge's deadline has passed.
    ChallengeExpired,
    /// The challenge's start time has not been reached yet.
    ChallengeNotStarted,
    /// The guild has reached its maximum member count.
    GuildFull,
    /// The user is already a member of a guild.
    AlreadyInGuild,
    /// The user is not a member of any guild.
    NotInGuild,
    /// A season is already running and a new one cannot be started.
    SeasonAlreadyActive,
    /// There is no active season to interact with.
    SeasonInactive,
    /// A user attempted to endorse themselves.
    SelfEndorsement,
    /// The daily endorsement limit for the caller has been reached.
    EndorsementLimitReached,
    /// The reward for this achievement has already been claimed.
    AchievementAlreadyClaimed,
    /// A prerequisite achievement has not been earned yet.
    PrerequisiteNotMet,
    /// The user has already joined this challenge.
    AlreadyJoinedChallenge,
    /// The user has not joined this challenge.
    NotJoinedChallenge,
    /// The provided guild name exceeds the maximum allowed length.
    GuildNameTooLong,
    /// The season's end time has not been reached, so it cannot be closed.
    SeasonNotEnded,
    /// The user does not have enough XP to perform the requested action.
    InsufficientXP,
}

/// The stable numeric code of each error.
pub open spec fn gamification_error_code(e: GamificationError) -> u32 {
    match e {
        GamificationError::AlreadyInitialized => 1,
        GamificationError::NotInitialized => 2,
        GamificationError::Unauthorized => 3,
        GamificationError::InvalidAmount => 4,
        GamificationError::InvalidInput => 5,
        GamificationError::NotFound => 6,
        GamificationError::AlreadyExists => 7,
        GamificationError::ChallengeFull => 8,
        GamificationError::ChallengeInactive => 9,
        GamificationError::ChallengeExpired => 10,
        GamificationError::ChallengeNotStarted => 11,
        GamificationError::GuildFull => 12,
        GamificationError::AlreadyInGuild => 13,
        GamificationError::NotInGuild => 14,
        GamificationError::SeasonAlreadyActive => 15,
        GamificationError::SeasonInactive => 16,
        GamificationError::SelfEndorsement => 17,
        GamificationError::EndorsementLimitReached => 18,
        GamificationError::AchievementAlreadyClaimed => 19,
        GamificationError::PrerequisiteNotMet => 20,
        GamificationError::AlreadyJoinedChallenge => 21,
        GamificationError::NotJoinedChallenge => 22,
        GamificationError::GuildNameTooLong => 23,
        GamificationError::SeasonNotEnded => 24,
        GamificationError::InsufficientXP => 25,
    }
}

impl GamificationError {
    /// The stable numeric code of this error.
    pub fn code(&self) -> (r: u32)
        ensures
            r == gamification_error_code(*self),
    {
        match self {
            GamificationError::AlreadyInitialized => 1,
            GamificationError::NotInitialized => 2,
            GamificationError::Unauthorized => 3,
            GamificationError::InvalidAmount => 4,
            GamificationError::InvalidInput => 5,
            GamificationError::NotFound => 6,
            GamificationError::AlreadyExists => 7,
            GamificationError::ChallengeFull => 8,
            GamificationError::ChallengeInactive => 9,
            GamificationError::ChallengeExpired => 10,
            GamificationError::ChallengeNotStarted => 11,
            GamificationError::GuildFull => 12,
            GamificationError::AlreadyInGuild => 13,
            GamificationError::NotInGuild => 14,
            GamificationError::SeasonAlreadyActive => 15,
            GamificationError::SeasonInactive => 16,
            GamificationError::SelfEndorsement => 17,
            GamificationError::EndorsementLimitReached => 18,
            GamificationError::AchievementAlreadyClaimed => 19,
            GamificationError::PrerequisiteNotMet => 20,
            GamificationError::AlreadyJoinedChallenge => 21,
            GamificationError::NotJoinedChallenge => 22,
            GamificationError::GuildNameTooLong => 23,
            GamificationError::SeasonNotEnded => 24,
            GamificationError::InsufficientXP => 25,
        }
    }
}

/// Rarity or prestige tier of a gamification achievement.
#[derive(Clone, Copy, Debug, PartialEq, Eq, Structural)]
pub enum AchievementTier {
    /// Common achievement earnable by most students.
    Bronze,
    /// Intermediate difficulty achievement.
    Silver,
    /// Achievement awarded for challenging milestones.
    Gold,
    /// Achievement reserved for expert-level accomplishments.
    Platinum,
    /// Legendary achievement attainable only by the top 1% of learners.
    Diamond,
}

/// Domain or activity type that an achievement belongs to.
#[derive(Clone, Copy, Debug, PartialEq, Eq, Structural)]
pub enum AchievementCategory {
    /// Awarded for course and module completions.
    Learning,
    /// Awarded for peer interactions and endorsements.
    Social,
    /// Awarded for consistency and habit formation via streaks.
    Streak,
    /// Awarded for completing challenges and quests.
    Challenge,
    /// Awarded for team-based guild accomplishments.
    Guild,
    /// Awarded for seasonal accomplishments.
    Season,
    /// Awarded for community contributions that build reputation.
    Reputation,
}

/// Classification of a user activity that may trigger XP or achievement updates.
#[derive(Clone, Copy, Debug, PartialEq, Eq, Structural)]
pub enum ActivityType {
    /// User completed a learning module.
    ModuleCompleted,
    /// User completed an entire course.
    CourseCompleted,
    /// User passed an assessment.
    AssessmentPassed,
    /// User logged a self-directed study session.
    StudySession,
    /// User helped a peer (e.g., answered a forum question).
    PeerHelped,
    /// User made progress towards completing a challenge.
    ChallengeProgress,
}

/// Metric used to rank users on a leaderboard.
#[derive(Clone, Copy, Debug, PartialEq, Eq, Structural)]
pub enum LeaderboardCategory {
    /// Ranked by cumulative XP across all time.
    TotalXP,
    /// Ranked by the length of the user's current activity streak.
    CurrentStreak,
    /// Ranked by total number of courses completed.
    CoursesCompleted,
    /// Ranked by community reputation score.
    Reputation,
    /// Ranked by XP earned in the current season.
    SeasonXP,
    /// Ranked by XP contributed to guild activities.
    GuildContributions,
    /// Ranked by total number of challenges completed.
    ChallengesCompleted,
    /// Ranked by total peer endorsements received.
    Endorsements,
}

/// Participation model for a gamification challenge.
#[derive(Clone, Copy, Debug, PartialEq, Eq, Structural)]
pub enum ChallengeType {
    /// A solo challenge completed independently.
    Individual,
    /// A guild-wide challenge where all members contribute toward a shared goal.
    Cooperative,
    /// A race-style challenge where the first participant to finish ranks highest.
    Competitive,
    /// A platform-wide participation challenge open to all users.
    Community,
}

/// Difficulty rating of a challenge.
#[derive(Clone, Copy, Debug, PartialEq, Eq, Structural)]
pub enum ChallengeDifficulty {
    /// Suitable for new learners.
    Beginner,
    /// Requires moderate experience.
    Intermediate,
    /// Demands significant skill and effort.
    Advanced,
    /// Reserved for highly proficient users.
    Expert,
    /// Exceptionally rare and difficult; the hardest tier.
    Legendary,
}

/// Role held by a member within a guild.
#[derive(Clone, Copy, Debug, PartialEq, Eq, Structural)]
pub enum GuildRole {
    /// Standard guild member with basic participation rights.
    Member,
    /// Elevated member with additional administrative privileges.
    Officer,
    /// The founding or primary leader of the guild.
    Leader,
}

/// End-of-season reward bracket based on a user's final ranking.
#[derive(Clone, Copy, Debug, PartialEq, Eq, Structural)]
pub enum SeasonRewardTier {
    /// User did not qualify for a reward.
    NoReward,
    /// Top 50% of participants.
    Bronze,
    /// Top 25% of participants.
    Silver,
    /// Top 10% of participants.
    Gold,
    /// Top 1% of participants.
    Diamond,
}

/// Standing tier assigned to a user based on their reputation score.
#[derive(Clone, Copy, Debug, PartialEq, Eq, Structural)]
pub enum ReputationTier {
    /// Starting tier for new community members.
    Novice,
    /// Early-progress tier for developing learners.
    Apprentice,
    /// Mid-level tier for consistently contributing members.
    Practitioner,
    /// Advanced tier recognising deep knowledge and contributions.
    Expert,
    /// High-prestige tier for outstanding community contributors.
    Master,
    /// The highest achievable reputation tier.
    Grandmaster,
}

/// Category of a peer recognition award.
#[derive(Clone, Copy, Debug, PartialEq, Eq, Structural)]
pub enum RecognitionType {
    /// Recognises a user for providing a helpful answer.
    HelpfulAnswer,
    /// Recognises a user for making exceptional learning progress.
    GreatProgress,
    /// Recognises a user whose work or attitude inspired others.
    Inspiration,
    /// Recognises a user for outstanding collaborative behaviour.
    Collaboration,
    /// Recognises a user for creative or novel contributions.
    Innovation,
}

/// Thresholds a user must meet to earn a specific achievement.
#[derive(Clone, Copy, Debug, PartialEq, Eq, Structural)]
pub struct AchievementRequirements {
    /// Minimum number of courses the user must have completed.
    pub courses_completed: u32,
    /// Minimum number of modules the user must have completed.
    pub modules_completed: u32,
    /// Minimum consecutive-day login streak required.
    pub streak_days: u32,
    /// Minimum total XP the user must have accumulated.
    pub total_xp: u32,
    /// Minimum number of challenges the user must have completed.
    pub challenges_completed: u32,
    /// Minimum number of peer endorsements the user must have received.
    pub endorsements_received: u32,
    /// Minimum number of contributions made within a guild.
    pub guild_contributions: u32,
    /// Minimum number of seasons the user must have completed.
    pub seasons_completed: u32,
}

/// Runtime configuration for XP values, endorsement limits, guild caps, and leaderboard sizes.
#[derive(Clone, Copy, Debug, PartialEq, Eq, Structural)]
pub struct GamificationConfig {
    /// Base XP awarded for completing a single module.
    pub base_module_xp: u32,
    /// Base XP awarded for completing an entire course.
    pub base_course_xp: u32,
    /// Bonus XP awarded for each completed streak week.
    pub streak_weekly_bonus: u32,
    /// Maximum additional XP earnable through streak bonuses (basis points over base).
    pub max_streak_bonus_xp: u32,
    /// XP awarded to the endorsee when they receive a peer endorsement.
    pub endorsement_xp: u32,
    /// XP awarded to a user for helping a peer.
    pub help_xp: u32,
    /// Maximum number of endorsements a user may give per day.
    pub max_endorsements_per_day: u32,
    /// Maximum number of members allowed in a single guild.
    pub guild_max_members: u32,
    /// Maximum number of entries retained in each leaderboard.
    pub leaderboard_size: u32,
}

/// The settings every deployment starts with.
pub open spec fn default_config() -> GamificationConfig {
    GamificationConfig {
        base_module_xp: 50,
        base_course_xp: 500,
        streak_weekly_bonus: 25,
        max_streak_bonus_xp: 500,
        endorsement_xp: 25,
        help_xp: 30,
        max_endorsements_per_day: 5,
        guild_max_members: 50,
        leaderboard_size: 50,
    }
}

/// The gamification contract's state: admin, settings, the identifier
/// counters and the active season (0 when none).
pub struct GamificationState {
    pub admin: Option<String>,
    pub config: Option<GamificationConfig>,
    pub achievement_counter: u64,
    pub challenge_counter: u64,
    pub guild_counter: u64,
    pub season_counter: u64,
    pub endorsement_counter: u64,
    pub recognition_counter: u64,
    pub active_season_id: u64,
}

/// The gamification contract.
pub struct Gamification;

impl Gamification {
    /// A contract that has not been set up.
    pub fn new_state() -> (r: GamificationState)
        ensures
            r.admin is None,
            r.config is None,
            r.achievement_counter == 0,
            r.challenge_counter == 0,
            r.guild_counter == 0,
            r.season_counter == 0,
            r.endorsement_counter == 0,
            r.recognition_counter == 0,
            r.active_season_id == 0,
    {
        GamificationState {
            admin: None,
            config: None,
            achievement_counter: 0,
            challenge_counter: 0,
            guild_counter: 0,
            season_counter: 0,
            endorsement_counter: 0,
            recognition_counter: 0,
            active_season_id: 0,
        }
    }

    /// One-time setup: records `admin`, the default settings, zeroed counters
    /// and no active season; `AlreadyInitialized` when an admin is recorded.
    pub fn initialize(st: &mut GamificationState, admin: String) -> (r: Result<(), GamificationError>)
        ensures
            old(st).admin is Some <==> r == Err::<(), GamificationError>(GamificationError::AlreadyInitialized),
            r is Err ==> *final(st) == *old(st),
            old(st).admin is None ==> r is Ok,
            r is Ok ==> *final(st) == (GamificationState {
                admin: Some(admin),
                config: Some(default_config()),
                achievement_counter: 0,
                challenge_counter: 0,
                guild_counter: 0,
                season_counter: 0,
                endorsement_counter: 0,
                recognition_counter: 0,
                active_season_id: 0,
            }),
    {
        if st.admin.is_some() {
            return Err(GamificationError::AlreadyInitialized);
        }
        st.admin = Some(admin);
        st.config = Some(GamificationConfig {
            base_module_xp: 50,
            base_course_xp: 500,
            streak_weekly_bonus: 25,
            max_streak_bonus_xp: 500,
            endorsement_xp: 25,
            help_xp: 30,
            max_endorsements_per_day: 5,
            guild_max_members: 50,
            leaderboard_size: 50,
        });
        st.achievement_counter = 0;
        st.challenge_counter = 0;
        st.guild_counter = 0;
        st.season_counter = 0;
        st.endorsement_counter = 0;
        st.recognition_counter = 0;
        st.active_season_id = 0;
        Ok(())
    }

    /// The recorded admin, if the contract was set up.
    pub fn get_admin(st: &GamificationState) -> (r: Option<String>)
        ensures
            r == st.admin,
    {
        match &st.admin {
            Some(a) => Some(a.clone()),
            None => None,
        }
    }
}

} // verus!
