//! All known permission scopes, and parsing of unknown ones.

pub mod validator;

use vstd::prelude::*;

verus! {

/// A permission scope: one of the provider's known identifiers, or an
/// arbitrary string for scopes this library does not know about.
///
/// Two scopes are equal exactly when their canonical strings are equal.
#[derive(Debug)]
pub enum Scope {
    /// `analytics:read:extensions`
    AnalyticsReadExtensions,
    /// `analytics:read:games`
    AnalyticsReadGames,
    /// `bits:read`
    BitsRead,
    /// `channel:edit:commercial`
    ChannelEditCommercial,
    /// `channel:manage:broadcast`
    ChannelManageBroadcast,
    /// `channel:manage:extensions`
    ChannelManageExtensions,
    /// `channel:manage:moderators`
    ChannelManageModerators,
    /// `channel:manage:polls`
    ChannelManagePolls,
    /// `channel:manage:predictions`
    ChannelManagePredictions,
    /// `channel:manage:raids`
    ChannelManageRaids,
    /// `channel:manage:redemptions`
    ChannelManageRedemptions,
    /// `channel:manage:schedule`
    ChannelManageSchedule,
    /// `channel:manage:videos`
    ChannelManageVideos,
    /// `channel:manage:vips`
    ChannelManageVips,
    /// `channel:moderate`
    ChannelModerate,
    /// `channel:read:charity`
    ChannelReadCharity,
    /// `channel:read:editors`
    ChannelReadEditors,
    /// `channel:read:goals`
    ChannelReadGoals,
    /// `channel:read:hype_train`
    ChannelReadHypeTrain,
    /// `channel:read:polls`
    ChannelReadPolls,
    /// `channel:read:predictions`
    ChannelReadPredictions,
    /// `channel:read:redemptions`
    ChannelReadRedemptions,
    /// `channel:read:stream_key`
    ChannelReadStreamKey,
    /// `channel:read:subscriptions`
    ChannelReadSubscriptions,
    /// `channel:read:vips`
    ChannelReadVips,
    /// `channel_subscriptions` (deprecated; omitted from [`Scope::all`])
    ChannelSubscriptions,
    /// `chat:edit`
    ChatEdit,
    /// `chat:read`
    ChatRead,
    /// `clips:edit`
    ClipsEdit,
    /// `moderation:read`
    ModerationRead,
    /// `moderator:manage:announcements`
    ModeratorManageAnnouncements,
    /// `moderator:manage:automod`
    ModeratorManageAutoMod,
    /// `moderator:manage:automod_settings`
    ModeratorManageAutomodSettings,
    /// `moderator:manage:banned_users`
    ModeratorManageBannedUsers,
    /// `moderator:manage:blocked_terms`
    ModeratorManageBlockedTerms,
    /// `moderator:manage:chat_messages`
    ModeratorManageChatMessages,
    /// `moderator:manage:chat_settings`
    ModeratorManageChatSettings,
    /// `moderator:manage:shield_mode`
    ModeratorManageShieldMode,
    /// `moderator:manage:shoutouts`
    ModeratorManageShoutouts,
    /// `moderator:read:automod_settings`
    ModeratorReadAutomodSettings,
    /// `moderator:read:blocked_terms`
    ModeratorReadBlockedTerms,
    /// `moderator:read:chat_settings`
    ModeratorReadChatSettings,
    /// `moderator:read:chatters`
    ModeratorReadChatters,
    /// `moderator:read:followers`
    ModeratorReadFollowers,
    /// `moderator:read:shield_mode`
    ModeratorReadShieldMode,
    /// `moderator:read:shoutouts`
    ModeratorReadShoutouts,
    /// `user:edit`
    UserEdit,
    /// `user:edit:broadcast`
    UserEditBroadcast,
    /// `user:edit:follows` (deprecated; omitted from [`Scope::all`])
    UserEditFollows,
    /// `user:manage:blocked_users`
    UserManageBlockedUsers,
    /// `user:manage:chat_color`
    UserManageChatColor,
    /// `user:manage:whispers`
    UserManageWhispers,
    /// `user:read:blocked_users`
    UserReadBlockedUsers,
    /// `user:read:broadcast`
    UserReadBroadcast,
    /// `user:read:email`
    UserReadEmail,
    /// `user:read:follows`
    UserReadFollows,
    /// `user:read:subscriptions`
    UserReadSubscriptions,
    /// `whispers:edit`
    WhispersEdit,
    /// `whispers:read`
    WhispersRead,
    /// Other scope that is not implemented.
    Other(String),
}

impl View for Scope {
    type V = Seq<char>;

    open spec fn view(&self) -> Seq<char> {
        match self {
            Scope::AnalyticsReadExtensions => "analytics:read:extensions"@,
            Scope::AnalyticsReadGames => "analytics:read:games"@,
            Scope::BitsRead => "bits:read"@,
            Scope::ChannelEditCommercial => "channel:edit:commercial"@,
            Scope::ChannelManageBroadcast => "channel:manage:broadcast"@,
            Scope::ChannelManageExtensions => "channel:manage:extensions"@,
            Scope::ChannelManageModerators => "channel:manage:moderators"@,
            Scope::ChannelManagePolls => "channel:manage:polls"@,
            Scope::ChannelManagePredictions => "channel:manage:predictions"@,
            Scope::ChannelManageRaids => "channel:manage:raids"@,
            Scope::ChannelManageRedemptions => "channel:manage:redemptions"@,
            Scope::ChannelManageSchedule => "channel:manage:schedule"@,
            Scope::ChannelManageVideos => "channel:manage:videos"@,
            Scope::ChannelManageVips => "channel:manage:vips"@,
            Scope::ChannelModerate => "channel:moderate"@,
            Scope::ChannelReadCharity => "channel:read:charity"@,
            Scope::ChannelReadEditors => "channel:read:editors"@,
            Scope::ChannelReadGoals => "channel:read:goals"@,
            Scope::ChannelReadHypeTrain => "channel:read:hype_train"@,
            Scope::ChannelReadPolls => "channel:read:polls"@,
            Scope::ChannelReadPredictions => "channel:read:predictions"@,
            Scope::ChannelReadRedemptions => "channel:read:redemptions"@,
            Scope::ChannelReadStreamKey => "channel:read:stream_key"@,
            Scope::ChannelReadSubscriptions => "channel:read:subscriptions"@,
            Scope::ChannelReadVips => "channel:read:vips"@,
            Scope::ChannelSubscriptions => "channel_subscriptions"@,
            Scope::ChatEdit => "chat:edit"@,
            Scope::ChatRead => "chat:read"@,
            Scope::ClipsEdit => "clips:edit"@,
            Scope::ModerationRead => "moderation:read"@,
            Scope::ModeratorManageAnnouncements => "moderator:manage:announcements"@,
            Scope::ModeratorManageAutoMod => "moderator:manage:automod"@,
            Scope::ModeratorManageAutomodSettings => "moderator:manage:automod_settings"@,
            Scope::ModeratorManageBannedUsers => "moderator:manage:banned_users"@,
            Scope::ModeratorManageBlockedTerms => "moderator:manage:blocked_terms"@,
            Scope::ModeratorManageChatMessages => "moderator:manage:chat_messages"@,
            Scope::ModeratorManageChatSettings => "moderator:manage:chat_settings"@,
            Scope::ModeratorManageShieldMode => "moderator:manage:shield_mode"@,
            Scope::ModeratorManageShoutouts => "moderator:manage:shoutouts"@,
            Scope::ModeratorReadAutomodSettings => "moderator:read:automod_settings"@,
            Scope::ModeratorReadBlockedTerms => "moderator:read:blocked_terms"@,
            Scope::ModeratorReadChatSettings => "moderator:read:chat_settings"@,
            Scope::ModeratorReadChatters => "moderator:read:chatters"@,
            Scope::ModeratorReadFollowers => "moderator:read:followers"@,
            Scope::ModeratorReadShieldMode => "moderator:read:shield_mode"@,
            Scope::ModeratorReadShoutouts => "moderator:read:shoutouts"@,
            Scope::UserEdit => "user:edit"@,
            Scope::UserEditBroadcast => "user:edit:broadcast"@,
            Scope::UserEditFollows => "user:edit:follows"@,
            Scope::UserManageBlockedUsers => "user:manage:blocked_users"@,
            Scope::UserManageChatColor => "user:manage:chat_color"@,
            Scope::UserManageWhispers => "user:manage:whispers"@,
            Scope::UserReadBlockedUsers => "user:read:blocked_users"@,
            Scope::UserReadBroadcast => "user:read:broadcast"@,
            Scope::UserReadEmail => "user:read:email"@,
            Scope::UserReadFollows => "user:read:follows"@,
            Scope::UserReadSubscriptions => "user:read:subscriptions"@,
            Scope::WhispersEdit => "whispers:edit"@,
            Scope::WhispersRead => "whispers:read"@,
            Scope::Other(s) => s@,
        }
    }
}

/// Relies on str's `PartialEq`: two `&str` are `==` exactly when their
/// character sequences are equal.
#[verifier::external_body]
pub(crate) fn str_eq(a: &str, b: &str) -> (r: bool)
    ensures
        r == (a@ == b@),
{
    a == b
}

impl Scope {
    /// Get the scope as a borrowed string.
    pub fn as_str(&self) -> (r: &str)
        ensures
            r@ == self@,
    {
        match self {
            Scope::AnalyticsReadExtensions => "analytics:read:extensions",
            Scope::AnalyticsReadGames => "analytics:read:games",
            Scope::BitsRead => "bits:read",
            Scope::ChannelEditCommercial => "channel:edit:commercial",
            Scope::ChannelManageBroadcast => "channel:manage:broadcast",
            Scope::ChannelManageExtensions => "channel:manage:extensions",
            Scope::ChannelManageModerators => "channel:manage:moderators",
            Scope::ChannelManagePolls => "channel:manage:polls",
            Scope::ChannelManagePredictions => "channel:manage:predictions",
            Scope::ChannelManageRaids => "channel:manage:raids",
            Scope::ChannelManageRedemptions => "channel:manage:redemptions",
            Scope::ChannelManageSchedule => "channel:manage:schedule",
            Scope::ChannelManageVideos => "channel:manage:videos",
            Scope::ChannelManageVips => "channel:manage:vips",
            Scope::ChannelModerate => "channel:moderate",
            Scope::ChannelReadCharity => "channel:read:charity",
            Scope::ChannelReadEditors => "channel:read:editors",
            Scope::ChannelReadGoals => "channel:read:goals",
            Scope::ChannelReadHypeTrain => "channel:read:hype_train",
            Scope::ChannelReadPolls => "channel:read:polls",
            Scope::ChannelReadPredictions => "channel:read:predictions",
            Scope::ChannelReadRedemptions => "channel:read:redemptions",
            Scope::ChannelReadStreamKey => "channel:read:stream_key",
            Scope::ChannelReadSubscriptions => "channel:read:subscriptions",
            Scope::ChannelReadVips => "channel:read:vips",
            Scope::ChannelSubscriptions => "channel_subscriptions",
            Scope::ChatEdit => "chat:edit",
            Scope::ChatRead => "chat:read",
            Scope::ClipsEdit => "clips:edit",
            Scope::ModerationRead => "moderation:read",
            Scope::ModeratorManageAnnouncements => "moderator:manage:announcements",
            Scope::ModeratorManageAutoMod => "moderator:manage:automod",
            Scope::ModeratorManageAutomodSettings => "moderator:manage:automod_settings",
            Scope::ModeratorManageBannedUsers => "moderator:manage:banned_users",
            Scope::ModeratorManageBlockedTerms => "moderator:manage:blocked_terms",
            Scope::ModeratorManageChatMessages => "moderator:manage:chat_messages",
            Scope::ModeratorManageChatSettings => "moderator:manage:chat_settings",
            Scope::ModeratorManageShieldMode => "moderator:manage:shield_mode",
            Scope::ModeratorManageShoutouts => "moderator:manage:shoutouts",
            Scope::ModeratorReadAutomodSettings => "moderator:read:automod_settings",
            Scope::ModeratorReadBlockedTerms => "moderator:read:blocked_terms",
            Scope::ModeratorReadChatSettings => "moderator:read:chat_settings",
            Scope::ModeratorReadChatters => "moderator:read:chatters",
            Scope::ModeratorReadFollowers => "moderator:read:followers",
            Scope::ModeratorReadShieldMode => "moderator:read:shield_mode",
            Scope::ModeratorReadShoutouts => "moderator:read:shoutouts",
            Scope::UserEdit => "user:edit",
            Scope::UserEditBroadcast => "user:edit:broadcast",
            Scope::UserEditFollows => "user:edit:follows",
            Scope::UserManageBlockedUsers => "user:manage:blocked_users",
            Scope::UserManageChatColor => "user:manage:chat_color",
            Scope::UserManageWhispers => "user:manage:whispers",
            Scope::UserReadBlockedUsers => "user:read:blocked_users",
            Scope::UserReadBroadcast => "user:read:broadcast",
            Scope::UserReadEmail => "user:read:email",
            Scope::UserReadFollows => "user:read:follows",
            Scope::UserReadSubscriptions => "user:read:subscriptions",
            Scope::WhispersEdit => "whispers:edit",
            Scope::WhispersRead => "whispers:read",
            Scope::Other(c) => c.as_str(),
        }
    }

    /// The known scope whose canonical string is `s`, if any.
    pub open spec fn spec_parse(s: Seq<char>) -> Option<Scope> {
        if s == "analytics:read:extensions"@ {
            Some(Scope::AnalyticsReadExtensions)
        } else if s == "analytics:read:games"@ {
            Some(Scope::AnalyticsReadGames)
        } else if s == "bits:read"@ {
            Some(Scope::BitsRead)
        } else if s == "channel:edit:commercial"@ {
            Some(Scope::ChannelEditCommercial)
        } else if s == "channel:manage:broadcast"@ {
            Some(Scope::ChannelManageBroadcast)
        } else if s == "channel:manage:extensions"@ {
            Some(Scope::ChannelManageExtensions)
        } else if s == "channel:manage:moderators"@ {
            Some(Scope::ChannelManageModerators)
        } else if s == "channel:manage:polls"@ {
            Some(Scope::ChannelManagePolls)
        } else if s == "channel:manage:predictions"@ {
            Some(Scope::ChannelManagePredictions)
        } else if s == "channel:manage:raids"@ {
            Some(Scope::ChannelManageRaids)
        } else if s == "channel:manage:redemptions"@ {
            Some(Scope::ChannelManageRedemptions)
        } else if s == "channel:manage:schedule"@ {
            Some(Scope::ChannelManageSchedule)
        } else if s == "channel:manage:videos"@ {
            Some(Scope::ChannelManageVideos)
        } else if s == "channel:manage:vips"@ {
            Some(Scope::ChannelManageVips)
        } else if s == "channel:moderate"@ {
            Some(Scope::ChannelModerate)
        } else if s == "channel:read:charity"@ {
            Some(Scope::ChannelReadCharity)
        } else if s == "channel:read:editors"@ {
            Some(Scope::ChannelReadEditors)
        } else if s == "channel:read:goals"@ {
            Some(Scope::ChannelReadGoals)
        } else if s == "channel:read:hype_train"@ {
            Some(Scope::ChannelReadHypeTrain)
        } else if s == "channel:read:polls"@ {
            Some(Scope::ChannelReadPolls)
        } else if s == "channel:read:predictions"@ {
            Some(Scope::ChannelReadPredictions)
        } else if s == "channel:read:redemptions"@ {
            Some(Scope::ChannelReadRedemptions)
        } else if s == "channel:read:stream_key"@ {
            Some(Scope::ChannelReadStreamKey)
        } else if s == "channel:read:subscriptions"@ {
            Some(Scope::ChannelReadSubscriptions)
        } else if s == "channel:read:vips"@ {
            Some(Scope::ChannelReadVips)
        } else if s == "channel_subscriptions"@ {
            Some(Scope::ChannelSubscriptions)
        } else if s == "chat:edit"@ {
            Some(Scope::ChatEdit)
        } else if s == "chat:read"@ {
            Some(Scope::ChatRead)
        } else if s == "clips:edit"@ {
            Some(Scope::ClipsEdit)
        } else if s == "moderation:read"@ {
            Some(Scope::ModerationRead)
        } else if s == "moderator:manage:announcements"@ {
            Some(Scope::ModeratorManageAnnouncements)
        } else if s == "moderator:manage:automod"@ {
            Some(Scope::ModeratorManageAutoMod)
        } else if s == "moderator:manage:automod_settings"@ {
            Some(Scope::ModeratorManageAutomodSettings)
        } else if s == "moderator:manage:banned_users"@ {
            Some(Scope::ModeratorManageBannedUsers)
        } else if s == "moderator:manage:blocked_terms"@ {
            Some(Scope::ModeratorManageBlockedTerms)
        } else if s == "moderator:manage:chat_messages"@ {
            Some(Scope::ModeratorManageChatMessages)
        } else if s == "moderator:manage:chat_settings"@ {
            Some(Scope::ModeratorManageChatSettings)
        } else if s == "moderator:manage:shield_mode"@ {
            Some(Scope::ModeratorManageShieldMode)
        } else if s == "moderator:manage:shoutouts"@ {
            Some(Scope::ModeratorManageShoutouts)
        } else if s == "moderator:read:automod_settings"@ {
            Some(Scope::ModeratorReadAutomodSettings)
        } else if s == "moderator:read:blocked_terms"@ {
            Some(Scope::ModeratorReadBlockedTerms)
        } else if s == "moderator:read:chat_settings"@ {
            Some(Scope::ModeratorReadChatSettings)
        } else if s == "moderator:read:chatters"@ {
            Some(Scope::ModeratorReadChatters)
        } else if s == "moderator:read:followers"@ {
            Some(Scope::ModeratorReadFollowers)
        } else if s == "moderator:read:shield_mode"@ {
            Some(Scope::ModeratorReadShieldMode)
        } else if s == "moderator:read:shoutouts"@ {
            Some(Scope::ModeratorReadShoutouts)
        } else if s == "user:edit"@ {
            Some(Scope::UserEdit)
        } else if s == "user:edit:broadcast"@ {
            Some(Scope::UserEditBroadcast)
        } else if s == "user:edit:follows"@ {
            Some(Scope::UserEditFollows)
        } else if s == "user:manage:blocked_users"@ {
            Some(Scope::UserManageBlockedUsers)
        } else if s == "user:manage:chat_color"@ {
            Some(Scope::UserManageChatColor)
        } else if s == "user:manage:whispers"@ {
            Some(Scope::UserManageWhispers)
        } else if s == "user:read:blocked_users"@ {
            Some(Scope::UserReadBlockedUsers)
        } else if s == "user:read:broadcast"@ {
            Some(Scope::UserReadBroadcast)
        } else if s == "user:read:email"@ {
            Some(Scope::UserReadEmail)
        } else if s == "user:read:follows"@ {
            Some(Scope::UserReadFollows)
        } else if s == "user:read:subscriptions"@ {
            Some(Scope::UserReadSubscriptions)
        } else if s == "whispers:edit"@ {
            Some(Scope::WhispersEdit)
        } else if s == "whispers:read"@ {
            Some(Scope::WhispersRead)
        } else {
            None
        }
    }

    /// Make a scope from a string: the known scope with that canonical
    /// string, or `Other` carrying the string unchanged.
    pub fn parse(s: String) -> (r: Scope)
        ensures
            r@ == s@,
            match Scope::spec_parse(s@) {
                Some(k) => r == k,
                None => r == Scope::Other(s),
            },
    {
        if str_eq(s.as_str(), "analytics:read:extensions") {
            Scope::AnalyticsReadExtensions
        } else if str_eq(s.as_str(), "analytics:read:games") {
            Scope::AnalyticsReadGames
        } else if str_eq(s.as_str(), "bits:read") {
            Scope::BitsRead
        } else if str_eq(s.as_str(), "channel:edit:commercial") {
            Scope::ChannelEditCommercial
        } else if str_eq(s.as_str(), "channel:manage:broadcast") {
            Scope::ChannelManageBroadcast
        } else if str_eq(s.as_str(), "channel:manage:extensions") {
            Scope::ChannelManageExtensions
        } else if str_eq(s.as_str(), "channel:manage:moderators") {
            Scope::ChannelManageModerators
        } else if str_eq(s.as_str(), "channel:manage:polls") {
            Scope::ChannelManagePolls
        } else if str_eq(s.as_str(), "channel:manage:predictions") {
            Scope::ChannelManagePredictions
        } else if str_eq(s.as_str(), "channel:manage:raids") {
            Scope::ChannelManageRaids
        } else if str_eq(s.as_str(), "channel:manage:redemptions") {
            Scope::ChannelManageRedemptions
        } else if str_eq(s.as_str(), "channel:manage:schedule") {
            Scope::ChannelManageSchedule
        } else if str_eq(s.as_str(), "channel:manage:videos") {
            Scope::ChannelManageVideos
        } else if str_eq(s.as_str(), "channel:manage:vips") {
            Scope::ChannelManageVips
        } else if str_eq(s.as_str(), "channel:moderate") {
            Scope::ChannelModerate
        } else if str_eq(s.as_str(), "channel:read:charity") {
            Scope::ChannelReadCharity
        } else if str_eq(s.as_str(), "channel:read:editors") {
            Scope::ChannelReadEditors
        } else if str_eq(s.as_str(), "channel:read:goals") {
            Scope::ChannelReadGoals
        } else if str_eq(s.as_str(), "channel:read:hype_train") {
            Scope::ChannelReadHypeTrain
        } else if str_eq(s.as_str(), "channel:read:polls") {
            Scope::ChannelReadPolls
        } else if str_eq(s.as_str(), "channel:read:predictions") {
            Scope::ChannelReadPredictions
        } else if str_eq(s.as_str(), "channel:read:redemptions") {
            Scope::ChannelReadRedemptions
        } else if str_eq(s.as_str(), "channel:read:stream_key") {
            Scope::ChannelReadStreamKey
        } else if str_eq(s.as_str(), "channel:read:subscriptions") {
            Scope::ChannelReadSubscriptions
        } else if str_eq(s.as_str(), "channel:read:vips") {
            Scope::ChannelReadVips
        } else if str_eq(s.as_str(), "channel_subscriptions") {
            Scope::ChannelSubscriptions
        } else if str_eq(s.as_str(), "chat:edit") {
            Scope::ChatEdit
        } else if str_eq(s.as_str(), "chat:read") {
            Scope::ChatRead
        } else if str_eq(s.as_str(), "clips:edit") {
            Scope::ClipsEdit
        } else if str_eq(s.as_str(), "moderation:read") {
            Scope::ModerationRead
        } else if str_eq(s.as_str(), "moderator:manage:announcements") {
            Scope::ModeratorManageAnnouncements
        } else if str_eq(s.as_str(), "moderator:manage:automod") {
            Scope::ModeratorManageAutoMod
        } else if str_eq(s.as_str(), "moderator:manage:automod_settings") {
            Scope::ModeratorManageAutomodSettings
        } else if str_eq(s.as_str(), "moderator:manage:banned_users") {
            Scope::ModeratorManageBannedUsers
        } else if str_eq(s.as_str(), "moderator:manage:blocked_terms") {
            Scope::ModeratorManageBlockedTerms
        } else if str_eq(s.as_str(), "moderator:manage:chat_messages") {
            Scope::ModeratorManageChatMessages
        } else if str_eq(s.as_str(), "moderator:manage:chat_settings") {
            Scope::ModeratorManageChatSettings
        } else if str_eq(s.as_str(), "moderator:manage:shield_mode") {
            Scope::ModeratorManageShieldMode
        } else if str_eq(s.as_str(), "moderator:manage:shoutouts") {
            Scope::ModeratorManageShoutouts
        } else if str_eq(s.as_str(), "moderator:read:automod_settings") {
            Scope::ModeratorReadAutomodSettings
        } else if str_eq(s.as_str(), "moderator:read:blocked_terms") {
            Scope::ModeratorReadBlockedTerms
        } else if str_eq(s.as_str(), "moderator:read:chat_settings") {
            Scope::ModeratorReadChatSettings
        } else if str_eq(s.as_str(), "moderator:read:chatters") {
            Scope::ModeratorReadChatters
        } else if str_eq(s.as_str(), "moderator:read:followers") {
            Scope::ModeratorReadFollowers
        } else if str_eq(s.as_str(), "moderator:read:shield_mode") {
            Scope::ModeratorReadShieldMode
        } else if str_eq(s.as_str(), "moderator:read:shoutouts") {
            Scope::ModeratorReadShoutouts
        } else if str_eq(s.as_str(), "user:edit") {
            Scope::UserEdit
        } else if str_eq(s.as_str(), "user:edit:broadcast") {
            Scope::UserEditBroadcast
        } else if str_eq(s.as_str(), "user:edit:follows") {
            Scope::UserEditFollows
        } else if str_eq(s.as_str(), "user:manage:blocked_users") {
            Scope::UserManageBlockedUsers
        } else if str_eq(s.as_str(), "user:manage:chat_color") {
            Scope::UserManageChatColor
        } else if str_eq(s.as_str(), "user:manage:whispers") {
            Scope::UserManageWhispers
        } else if str_eq(s.as_str(), "user:read:blocked_users") {
            Scope::UserReadBlockedUsers
        } else if str_eq(s.as_str(), "user:read:broadcast") {
            Scope::UserReadBroadcast
        } else if str_eq(s.as_str(), "user:read:email") {
            Scope::UserReadEmail
        } else if str_eq(s.as_str(), "user:read:follows") {
            Scope::UserReadFollows
        } else if str_eq(s.as_str(), "user:read:subscriptions") {
            Scope::UserReadSubscriptions
        } else if str_eq(s.as_str(), "whispers:edit") {
            Scope::WhispersEdit
        } else if str_eq(s.as_str(), "whispers:read") {
            Scope::WhispersRead
        } else {
            Scope::Other(s)
        }
    }

    /// All defined scopes, deprecated ones omitted.
    pub open spec fn all_spec() -> Seq<Scope> {
        seq![
            Scope::AnalyticsReadExtensions,
            Scope::AnalyticsReadGames,
            Scope::BitsRead,
            Scope::ChannelEditCommercial,
            Scope::ChannelManageBroadcast,
            Scope::ChannelManageExtensions,
            Scope::ChannelManageModerators,
            Scope::ChannelManagePolls,
            Scope::ChannelManagePredictions,
            Scope::ChannelManageRaids,
            Scope::ChannelManageRedemptions,
            Scope::ChannelManageSchedule,
            Scope::ChannelManageVideos,
            Scope::ChannelManageVips,
            Scope::ChannelModerate,
            Scope::ChannelReadCharity,
            Scope::ChannelReadEditors,
            Scope::ChannelReadGoals,
            Scope::ChannelReadHypeTrain,
            Scope::ChannelReadPolls,
            Scope::ChannelReadPredictions,
            Scope::ChannelReadRedemptions,
            Scope::ChannelReadStreamKey,
            Scope::ChannelReadSubscriptions,
            Scope::ChannelReadVips,
            Scope::ChatEdit,
            Scope::ChatRead,
            Scope::ClipsEdit,
            Scope::ModerationRead,
            Scope::ModeratorManageAnnouncements,
            Scope::ModeratorManageAutoMod,
            Scope::ModeratorManageAutomodSettings,
            Scope::ModeratorManageBannedUsers,
            Scope::ModeratorManageBlockedTerms,
            Scope::ModeratorManageChatMessages,
            Scope::ModeratorManageChatSettings,
            Scope::ModeratorManageShieldMode,
            Scope::ModeratorManageShoutouts,
            Scope::ModeratorReadAutomodSettings,
            Scope::ModeratorReadBlockedTerms,
            Scope::ModeratorReadChatSettings,
            Scope::ModeratorReadChatters,
            Scope::ModeratorReadFollowers,
            Scope::ModeratorReadShieldMode,
            Scope::ModeratorReadShoutouts,
            Scope::UserEdit,
            Scope::UserEditBroadcast,
            Scope::UserManageBlockedUsers,
            Scope::UserManageChatColor,
            Scope::UserManageWhispers,
            Scope::UserReadBlockedUsers,
            Scope::UserReadBroadcast,
            Scope::UserReadEmail,
            Scope::UserReadFollows,
            Scope::UserReadSubscriptions,
            Scope::WhispersEdit,
            Scope::WhispersRead,
        ]
    }

    /// Get a vec of all defined scopes, deprecated ones omitted.
    pub fn all() -> (r: Vec<Scope>)
        ensures
            r@ == Scope::all_spec(),
    {
        let mut v: Vec<Scope> = Vec::new();
        v.push(Scope::AnalyticsReadExtensions);
        v.push(Scope::AnalyticsReadGames);
        v.push(Scope::BitsRead);
        v.push(Scope::ChannelEditCommercial);
        v.push(Scope::ChannelManageBroadcast);
        v.push(Scope::ChannelManageExtensions);
        v.push(Scope::ChannelManageModerators);
        v.push(Scope::ChannelManagePolls);
        v.push(Scope::ChannelManagePredictions);
        v.push(Scope::ChannelManageRaids);
        v.push(Scope::ChannelManageRedemptions);
        v.push(Scope::ChannelManageSchedule);
        v.push(Scope::ChannelManageVideos);
        v.push(Scope::ChannelManageVips);
        v.push(Scope::ChannelModerate);
        v.push(Scope::ChannelReadCharity);
        v.push(Scope::ChannelReadEditors);
        v.push(Scope::ChannelReadGoals);
        v.push(Scope::ChannelReadHypeTrain);
        v.push(Scope::ChannelReadPolls);
        v.push(Scope::ChannelReadPredictions);
        v.push(Scope::ChannelReadRedemptions);
        v.push(Scope::ChannelReadStreamKey);
        v.push(Scope::ChannelReadSubscriptions);
        v.push(Scope::ChannelReadVips);
        v.push(Scope::ChatEdit);
        v.push(Scope::ChatRead);
        v.push(Scope::ClipsEdit);
        v.push(Scope::ModerationRead);
        v.push(Scope::ModeratorManageAnnouncements);
        v.push(Scope::ModeratorManageAutoMod);
        v.push(Scope::ModeratorManageAutomodSettings);
        v.push(Scope::ModeratorManageBannedUsers);
        v.push(Scope::ModeratorManageBlockedTerms);
        v.push(Scope::ModeratorManageChatMessages);
        v.push(Scope::ModeratorManageChatSettings);
        v.push(Scope::ModeratorManageShieldMode);
        v.push(Scope::ModeratorManageShoutouts);
        v.push(Scope::ModeratorReadAutomodSettings);
        v.push(Scope::ModeratorReadBlockedTerms);
        v.push(Scope::ModeratorReadChatSettings);
        v.push(Scope::ModeratorReadChatters);
        v.push(Scope::ModeratorReadFollowers);
        v.push(Scope::ModeratorReadShieldMode);
        v.push(Scope::ModeratorReadShoutouts);
        v.push(Scope::UserEdit);
        v.push(Scope::UserEditBroadcast);
        v.push(Scope::UserManageBlockedUsers);
        v.push(Scope::UserManageChatColor);
        v.push(Scope::UserManageWhispers);
        v.push(Scope::UserReadBlockedUsers);
        v.push(Scope::UserReadBroadcast);
        v.push(Scope::UserReadEmail);
        v.push(Scope::UserReadFollows);
        v.push(Scope::UserReadSubscriptions);
        v.push(Scope::WhispersEdit);
        v.push(Scope::WhispersRead);
        proof {
            assert(v@ =~= Scope::all_spec());
        }
        v
    }
}

/// The canonical strings of a scope list, joined with single spaces: the
/// form in which token requests send a scope list.
pub open spec fn spec_join_scopes(s: Seq<Scope>) -> Seq<char>
    decreases s,
{
    if s.len() == 0 {
        Seq::empty()
    } else if s.len() == 1 {
        s[0]@
    } else {
        spec_join_scopes(s.subrange(0, s.len() - 1)) + " "@ + s[s.len() - 1]@
    }
}

/// Extending a prefix by one scope appends a space (after the first scope)
/// and that scope's canonical string.
proof fn lemma_step_join_scopes(s: Seq<Scope>, i: int)
    requires
        0 <= i < s.len(),
    ensures
        spec_join_scopes(s.subrange(0, i + 1)) == if i == 0 {
            s[0]@
        } else {
            spec_join_scopes(s.subrange(0, i)) + " "@ + s[i]@
        },
{
    let a = s.subrange(0, i + 1);
    assert(a.subrange(0, a.len() - 1) =~= s.subrange(0, i));
    assert(a[a.len() - 1] == s[i]);
}

/// The scopes joined with single spaces, as token requests send them.
#[verifier::loop_isolation(false)]
pub fn join_scopes(scopes: &[Scope]) -> (r: String)
    ensures
        r@ == spec_join_scopes(scopes@),
{
    let mut out = String::new();
    let mut i: usize = 0;
    while i < scopes.len()
        invariant
            0 <= i <= scopes@.len(),
            out@ == spec_join_scopes(scopes@.subrange(0, i as int)),
        decreases scopes@.len() - i,
    {
        proof {
            lemma_step_join_scopes(scopes@, i as int);
        }
        if i != 0 {
            out.append(" ");
        }
        out.append(scopes[i].as_str());
        i += 1;
    }
    proof {
        assert(scopes@.subrange(0, scopes@.len() as int) =~= scopes@);
    }
    out
}

impl Clone for Scope {
    fn clone(&self) -> (r: Self)
        ensures
            r == *self,
    {
        match self {
            Scope::AnalyticsReadExtensions => Scope::AnalyticsReadExtensions,
            Scope::AnalyticsReadGames => Scope::AnalyticsReadGames,
            Scope::BitsRead => Scope::BitsRead,
            Scope::ChannelEditCommercial => Scope::ChannelEditCommercial,
            Scope::ChannelManageBroadcast => Scope::ChannelManageBroadcast,
            Scope::ChannelManageExtensions => Scope::ChannelManageExtensions,
            Scope::ChannelManageModerators => Scope::ChannelManageModerators,
            Scope::ChannelManagePolls => Scope::ChannelManagePolls,
            Scope::ChannelManagePredictions => Scope::ChannelManagePredictions,
            Scope::ChannelManageRaids => Scope::ChannelManageRaids,
            Scope::ChannelManageRedemptions => Scope::ChannelManageRedemptions,
            Scope::ChannelManageSchedule => Scope::ChannelManageSchedule,
            Scope::ChannelManageVideos => Scope::ChannelManageVideos,
            Scope::ChannelManageVips => Scope::ChannelManageVips,
            Scope::ChannelModerate => Scope::ChannelModerate,
            Scope::ChannelReadCharity => Scope::ChannelReadCharity,
            Scope::ChannelReadEditors => Scope::ChannelReadEditors,
            Scope::ChannelReadGoals => Scope::ChannelReadGoals,
            Scope::ChannelReadHypeTrain => Scope::ChannelReadHypeTrain,
            Scope::ChannelReadPolls => Scope::ChannelReadPolls,
            Scope::ChannelReadPredictions => Scope::ChannelReadPredictions,
            Scope::ChannelReadRedemptions => Scope::ChannelReadRedemptions,
            Scope::ChannelReadStreamKey => Scope::ChannelReadStreamKey,
            Scope::ChannelReadSubscriptions => Scope::ChannelReadSubscriptions,
            Scope::ChannelReadVips => Scope::ChannelReadVips,
            Scope::ChannelSubscriptions => Scope::ChannelSubscriptions,
            Scope::ChatEdit => Scope::ChatEdit,
            Scope::ChatRead => Scope::ChatRead,
            Scope::ClipsEdit => Scope::ClipsEdit,
            Scope::ModerationRead => Scope::ModerationRead,
            Scope::ModeratorManageAnnouncements => Scope::ModeratorManageAnnouncements,
            Scope::ModeratorManageAutoMod => Scope::ModeratorManageAutoMod,
            Scope::ModeratorManageAutomodSettings => Scope::ModeratorManageAutomodSettings,
            Scope::ModeratorManageBannedUsers => Scope::ModeratorManageBannedUsers,
            Scope::ModeratorManageBlockedTerms => Scope::ModeratorManageBlockedTerms,
            Scope::ModeratorManageChatMessages => Scope::ModeratorManageChatMessages,
            Scope::ModeratorManageChatSettings => Scope::ModeratorManageChatSettings,
            Scope::ModeratorManageShieldMode => Scope::ModeratorManageShieldMode,
            Scope::ModeratorManageShoutouts => Scope::ModeratorManageShoutouts,
            Scope::ModeratorReadAutomodSettings => Scope::ModeratorReadAutomodSettings,
            Scope::ModeratorReadBlockedTerms => Scope::ModeratorReadBlockedTerms,
            Scope::ModeratorReadChatSettings => Scope::ModeratorReadChatSettings,
            Scope::ModeratorReadChatters => Scope::ModeratorReadChatters,
            Scope::ModeratorReadFollowers => Scope::ModeratorReadFollowers,
            Scope::ModeratorReadShieldMode => Scope::ModeratorReadShieldMode,
            Scope::ModeratorReadShoutouts => Scope::ModeratorReadShoutouts,
            Scope::UserEdit => Scope::UserEdit,
            Scope::UserEditBroadcast => Scope::UserEditBroadcast,
            Scope::UserEditFollows => Scope::UserEditFollows,
            Scope::UserManageBlockedUsers => Scope::UserManageBlockedUsers,
            Scope::UserManageChatColor => Scope::UserManageChatColor,
            Scope::UserManageWhispers => Scope::UserManageWhispers,
            Scope::UserReadBlockedUsers => Scope::UserReadBlockedUsers,
            Scope::UserReadBroadcast => Scope::UserReadBroadcast,
            Scope::UserReadEmail => Scope::UserReadEmail,
            Scope::UserReadFollows => Scope::UserReadFollows,
            Scope::UserReadSubscriptions => Scope::UserReadSubscriptions,
            Scope::WhispersEdit => Scope::WhispersEdit,
            Scope::WhispersRead => Scope::WhispersRead,
            Scope::Other(s) => Scope::Other(s.clone()),
        }
    }
}

impl From<String> for Scope {
    fn from(s: String) -> Self {
        Scope::parse(s)
    }
}

impl vstd::std_specs::convert::FromSpecImpl<String> for Scope {
    open spec fn obeys_from_spec() -> bool {
        true
    }

    open spec fn from_spec(s: String) -> Scope {
        match Scope::spec_parse(s@) {
            Some(k) => k,
            None => Scope::Other(s),
        }
    }
}

impl PartialEq for Scope {
    fn eq(&self, other: &Scope) -> (r: bool) {
        str_eq(self.as_str(), other.as_str())
    }
}

impl vstd::std_specs::cmp::PartialEqSpecImpl for Scope {
    open spec fn obeys_eq_spec() -> bool {
        true
    }

    open spec fn eq_spec(&self, other: &Scope) -> bool {
        self@ == other@
    }
}

} // verus!
