//! The users: which teams a user follows, where pushes for him go, and which
//! live activities he runs.

use vstd::prelude::*;
use crate::text::{
    clone_opt_text, clone_texts, opt_text, str_eq, texts, texts_without, without_text,
};
use crate::views::{lemma_filter_twice, lemma_views_push, views};

verus! {

/// A live activity of a user: the game that it shows and the token under
/// which it is updated.
#[derive(Debug)]
pub struct LiveActivityEntry {
    pub game_uuid: String,
    pub apn_token: String,
}

/// What a `LiveActivityEntry` holds.
pub struct LiveActivityView {
    pub game_uuid: Seq<char>,
    pub apn_token: Seq<char>,
}

impl View for LiveActivityEntry {
    type V = LiveActivityView;

    open spec fn view(&self) -> LiveActivityView {
        LiveActivityView { game_uuid: self.game_uuid@, apn_token: self.apn_token@ }
    }
}

impl Clone for LiveActivityEntry {
    fn clone(&self) -> (copy: Self)
        ensures
            copy@ == self@,
    {
        LiveActivityEntry {
            game_uuid: self.game_uuid.clone(),
            apn_token: self.apn_token.clone(),
        }
    }
}

/// A user.
#[derive(Debug)]
pub struct User {
    pub id: String,
    pub teams: Vec<String>,
    pub apn_token: Option<String>,
    pub ios_version: Option<String>,
    pub app_version: Option<String>,
    pub muted_games: Vec<String>,
    pub explicit_games: Vec<String>,
    pub live_activities: Vec<LiveActivityEntry>,
}

/// What a `User` holds.
pub struct UserView {
    pub id: Seq<char>,
    pub teams: Seq<Seq<char>>,
    pub apn_token: Option<Seq<char>>,
    pub ios_version: Option<Seq<char>>,
    pub app_version: Option<Seq<char>>,
    pub muted_games: Seq<Seq<char>>,
    pub explicit_games: Seq<Seq<char>>,
    pub live_activities: Seq<LiveActivityView>,
}

impl View for User {
    type V = UserView;

    open spec fn view(&self) -> UserView {
        UserView {
            id: self.id@,
            teams: texts(self.teams@),
            apn_token: opt_text(self.apn_token),
            ios_version: opt_text(self.ios_version),
            app_version: opt_text(self.app_version),
            muted_games: texts(self.muted_games@),
            explicit_games: texts(self.explicit_games@),
            live_activities: views(self.live_activities@),
        }
    }
}

/// A copy of `entries`, entry by entry.
pub fn clone_activities(entries: &Vec<LiveActivityEntry>) -> (copy: Vec<LiveActivityEntry>)
    ensures
        views(copy@) == views(entries@),
{
    let mut copy: Vec<LiveActivityEntry> = Vec::new();
    let mut i: usize = 0;
    while i < entries.len()
        invariant
            i <= entries.len(),
            copy.len() == i,
            forall|j: int| 0 <= j < i ==> (#[trigger] copy@[j])@ == entries@[j]@,
        decreases entries.len() - i,
    {
        copy.push(entries[i].clone());
        i += 1;
    }
    assert(views(copy@) =~= views(entries@));
    copy
}

impl Clone for User {
    fn clone(&self) -> (copy: Self)
        ensures
            copy@ == self@,
    {
        User {
            id: self.id.clone(),
            teams: clone_texts(&self.teams),
            apn_token: clone_opt_text(&self.apn_token),
            ios_version: clone_opt_text(&self.ios_version),
            app_version: clone_opt_text(&self.app_version),
            muted_games: clone_texts(&self.muted_games),
            explicit_games: clone_texts(&self.explicit_games),
            live_activities: clone_activities(&self.live_activities),
        }
    }
}

impl Default for User {
    fn default() -> (empty: Self)
        ensures
            empty@ == (UserView {
                id: Seq::empty(),
                teams: Seq::empty(),
                apn_token: None,
                ios_version: None,
                app_version: None,
                muted_games: Seq::empty(),
                explicit_games: Seq::empty(),
                live_activities: Seq::empty(),
            }),
    {
        let empty = User {
            id: String::new(),
            teams: Vec::new(),
            apn_token: None,
            ios_version: None,
            app_version: None,
            muted_games: Vec::new(),
            explicit_games: Vec::new(),
            live_activities: Vec::new(),
        };
        assert(texts(empty.teams@) =~= Seq::<Seq<char>>::empty());
        assert(views(empty.live_activities@) =~= Seq::<LiveActivityView>::empty());
        empty
    }
}

/// A user as a client posts him.
#[derive(Debug)]
pub struct AddUser {
    pub id: String,
    pub teams: Vec<String>,
    pub apn_token: Option<String>,
    pub ios_version: Option<String>,
    pub app_version: Option<String>,
}

/// The request to start a live activity.
#[derive(Debug)]
pub struct StartLiveActivity {
    pub user_id: String,
    pub token: String,
    pub game_uuid: String,
}

/// The request to end a live activity.
#[derive(Debug)]
pub struct EndLiveActivity {
    pub user_id: String,
    pub game_uuid: String,
}

/// The team code under which a posted team code is kept: the placeholder
/// `HERR` is kept as `NVIF`.
pub open spec fn kept_team(code: Seq<char>) -> Seq<char> {
    if code == "HERR"@ {
        "NVIF"@
    } else {
        code
    }
}

/// The user after a posted user is taken in: teams, token and versions are
/// those of the post; what else a known user holds stays, and a new user
/// starts without muted games, explicit games and live activities.
pub open spec fn user_taken_in(
    known: Option<UserView>,
    id: Seq<char>,
    teams: Seq<Seq<char>>,
    apn_token: Option<Seq<char>>,
    ios_version: Option<Seq<char>>,
    app_version: Option<Seq<char>>,
) -> UserView {
    let teams = teams.map_values(|t: Seq<char>| kept_team(t));
    match known {
        Some(user) => UserView { teams, apn_token, ios_version, app_version, ..user },
        None => UserView {
            id,
            teams,
            apn_token,
            ios_version,
            app_version,
            muted_games: Seq::empty(),
            explicit_games: Seq::empty(),
            live_activities: Seq::empty(),
        },
    }
}

/// `entries` without the live activities on the game `game`.
pub open spec fn activities_without(entries: Seq<LiveActivityView>, game: Seq<char>) -> Seq<
    LiveActivityView,
> {
    entries.filter(|e: LiveActivityView| e.game_uuid != game)
}

/// `entries` after a live activity on `game` is started under `token`: it
/// stands at the end, in place of any earlier one on that game.
pub open spec fn activity_started(
    entries: Seq<LiveActivityView>,
    game: Seq<char>,
    token: Seq<char>,
) -> Seq<LiveActivityView> {
    activities_without(entries, game).push(LiveActivityView { game_uuid: game, apn_token: token })
}

impl UserView {
    /// The user without any reference to the game `game`.
    pub open spec fn without_game(self, game: Seq<char>) -> UserView {
        UserView {
            live_activities: activities_without(self.live_activities, game),
            muted_games: texts_without(self.muted_games, game),
            explicit_games: texts_without(self.explicit_games, game),
            ..self
        }
    }
}

/// A copy of `entries` without the live activities on the game `game_uuid`.
pub fn without_activity(entries: &Vec<LiveActivityEntry>, game_uuid: &str) -> (kept: Vec<
    LiveActivityEntry,
>)
    ensures
        views(kept@) == activities_without(views(entries@), game_uuid@),
{
    let mut kept: Vec<LiveActivityEntry> = Vec::new();
    let ghost all = views(entries@);
    let ghost other = |e: LiveActivityView| e.game_uuid != game_uuid@;
    assert(all.take(0) =~= Seq::<LiveActivityView>::empty());
    assert(views(kept@) =~= Seq::<LiveActivityView>::empty());
    let mut i: usize = 0;
    while i < entries.len()
        invariant
            i <= entries.len(),
            all == views(entries@),
            other == |e: LiveActivityView| e.game_uuid != game_uuid@,
            views(kept@) == all.take(i as int).filter(other),
        decreases entries.len() - i,
    {
        proof {
            assert(all.take(i + 1) =~= all.take(i as int).push(all[i as int]));
            all.take(i as int).lemma_filter_push(all[i as int], other);
        }
        if !str_eq(entries[i].game_uuid.as_str(), game_uuid) {
            let copy = entries[i].clone();
            proof {
                lemma_views_push(kept@, copy);
            }
            kept.push(copy);
        }
        i += 1;
    }
    assert(all.take(entries.len() as int) =~= all);
    kept
}

/// The user store's rules.
pub struct UserService;

impl UserService {
    /// Takes a posted user in: `known` is the user stored under the posted
    /// id, if any; the user to store is returned.
    pub fn handle(known: Option<User>, request: AddUser) -> (user: User)
        ensures
            user@ == user_taken_in(
                match known {
                    Some(u) => Some(u@),
                    None => None,
                },
                request.id@,
                texts(request.teams@),
                opt_text(request.apn_token),
                opt_text(request.ios_version),
                opt_text(request.app_version),
            ),
    {
        let mut teams: Vec<String> = Vec::new();
        let mut i: usize = 0;
        while i < request.teams.len()
            invariant
                i <= request.teams.len(),
                teams.len() == i,
                forall|j: int| 0 <= j < i ==> (#[trigger] teams@[j])@ == kept_team(request.teams@[j]@),
            decreases request.teams.len() - i,
        {
            if str_eq(request.teams[i].as_str(), "HERR") {
                teams.push("NVIF".to_string());
            } else {
                teams.push(request.teams[i].clone());
            }
            i += 1;
        }
        assert(texts(teams@) =~= texts(request.teams@).map_values(|t: Seq<char>| kept_team(t)));
        match known {
            Some(user) => User {
                id: user.id,
                teams,
                apn_token: request.apn_token,
                ios_version: request.ios_version,
                app_version: request.app_version,
                muted_games: user.muted_games,
                explicit_games: user.explicit_games,
                live_activities: user.live_activities,
            },
            None => {
                let user = User {
                    id: request.id,
                    teams,
                    apn_token: request.apn_token,
                    ios_version: request.ios_version,
                    app_version: request.app_version,
                    muted_games: Vec::new(),
                    explicit_games: Vec::new(),
                    live_activities: Vec::new(),
                };
                assert(texts(user.muted_games@) =~= Seq::<Seq<char>>::empty());
                assert(views(user.live_activities@) =~= Seq::<LiveActivityView>::empty());
                user
            },
        }
    }

    /// Starts a live activity of `user`: an earlier one on the same game is
    /// replaced.
    pub fn start_live_activity(user: &mut User, req: &StartLiveActivity)
        ensures
            final(user)@ == (UserView {
                live_activities: activity_started(
                    old(user)@.live_activities,
                    req.game_uuid@,
                    req.token@,
                ),
                ..old(user)@
            }),
    {
        let entry = LiveActivityEntry {
            game_uuid: req.game_uuid.clone(),
            apn_token: req.token.clone(),
        };
        let mut kept = without_activity(&user.live_activities, req.game_uuid.as_str());
        proof {
            lemma_views_push(kept@, entry);
        }
        kept.push(entry);
        user.live_activities = kept;
    }

    /// Ends the live activity of `user` on the game `game_uuid`.
    pub fn end_live_activity(user: &mut User, game_uuid: &str)
        ensures
            final(user)@ == (UserView {
                live_activities: activities_without(old(user)@.live_activities, game_uuid@),
                ..old(user)@
            }),
    {
        user.live_activities = without_activity(&user.live_activities, game_uuid);
    }

    /// Takes every reference to the game `game_uuid` out of `users`: live
    /// activities on it, and its id among the muted and the explicit games.
    pub fn remove_references_to(users: &mut Vec<User>, game_uuid: &str)
        ensures
            views(final(users)@) == views(old(users)@).map_values(
                |u: UserView| u.without_game(game_uuid@),
            ),
    {
        let mut i: usize = 0;
        while i < users.len()
            invariant
                i <= users.len(),
                users.len() == old(users).len(),
                forall|j: int| 0 <= j < i ==> (#[trigger] users@[j])@ == old(users)@[j]@.without_game(game_uuid@),
                forall|j: int| i <= j < users.len() ==> (#[trigger] users@[j]) == old(users)@[j],
            decreases users.len() - i,
        {
            let mut user = users[i].clone();
            user.live_activities = without_activity(&user.live_activities, game_uuid);
            user.muted_games = without_text(&user.muted_games, game_uuid);
            user.explicit_games = without_text(&user.explicit_games, game_uuid);
            users.set(i, user);
            i += 1;
        }
        assert(views(users@) =~= views(old(users)@).map_values(
            |u: UserView| u.without_game(game_uuid@),
        ));
    }

    /// Forgets the device token of `user`.
    pub fn remove_apn_token(user: &mut User)
        ensures
            final(user)@ == (UserView { apn_token: None, ..old(user)@ }),
    {
        user.apn_token = None;
    }
}

/// Starting a live activity on a game a second time replaces the first: the
/// entries are as if only the second had been started, and exactly one of
/// them is on that game.
pub proof fn lemma_start_twice_replaces(
    entries: Seq<LiveActivityView>,
    game: Seq<char>,
    first: Seq<char>,
    second: Seq<char>,
)
    ensures
        activity_started(activity_started(entries, game, first), game, second) == activity_started(
            entries,
            game,
            second,
        ),
        activity_started(entries, game, second).filter(
            |e: LiveActivityView| e.game_uuid == game,
        ) == seq![LiveActivityView { game_uuid: game, apn_token: second }],
{
    let other = |e: LiveActivityView| e.game_uuid != game;
    let same = |e: LiveActivityView| e.game_uuid == game;
    let kept = entries.filter(other);
    let one = LiveActivityView { game_uuid: game, apn_token: first };
    let two = LiveActivityView { game_uuid: game, apn_token: second };
    kept.lemma_filter_push(one, other);
    lemma_filter_twice(entries, other);
    assert(kept.filter(same).len() == 0) by {
        if kept.filter(same).len() > 0 {
            let x = kept.filter(same)[0];
            kept.lemma_filter_pred(same, 0);
            assert(kept.filter(same).contains(x));
            kept.lemma_filter_contains_rev(same, x);
            let k = choose|k: int| 0 <= k < kept.len() && kept[k] == x;
            entries.lemma_filter_pred(other, k);
        }
    }
    kept.lemma_filter_push(two, same);
    assert(kept.push(two).filter(same) =~= seq![two]);
}

} // verus!
