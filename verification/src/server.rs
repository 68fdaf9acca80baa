//! The rules of an SSH session: who is let in, which channels are open, and how the
//! shell behind a terminal is set up.

use russh_keys::key::PublicKey;
use std::collections::HashMap;
use vstd::prelude::*;

verus! {

/// A public key.
#[verifier::external_type_specification]
#[verifier::external_body]
pub struct ExPublicKey(PublicKey);

/// The bytes in which a public key is written down.
pub uninterp spec fn key_bytes(key: PublicKey) -> Seq<u8>;

/// Calls `PublicKey::eq`: two keys are equal where they are written down in the same
/// bytes.
#[verifier::external_body]
fn same_key(one: &PublicKey, other: &PublicKey) -> (same: bool)
    ensures
        same == (key_bytes(*one) == key_bytes(*other)),
{
    one.eq(other)
}

/// Whether a client is let in.
#[derive(Debug, PartialEq, Eq, Structural, Clone, Copy)]
pub enum AuthVerdict {
    Accept,
    Reject,
}

/// The size of a terminal, in characters and in pixels.
#[derive(Debug, PartialEq, Eq, Structural, Clone, Copy)]
pub struct WindowSize {
    pub rows: u16,
    pub cols: u16,
    pub width: u16,
    pub height: u16,
}

/// The low half of a number.
pub open spec fn low_half(number: u32) -> int {
    number as int % 0x1_0000
}

/// The low half of a number.
fn low(number: u32) -> (half: u16)
    ensures
        half == low_half(number),
{
    assert((number & 0xffff) < 0x1_0000 && (number & 0xffff) == number % 0x1_0000) by (bit_vector);
    (number & 0xffff) as u16
}

/// How the shell of a terminal is started.
pub struct ShellPlan {
    pub program: String,
    pub env: Vec<(String, String)>,
    pub size: WindowSize,
}

/// Pairs of strings as values.
pub open spec fn pairs(env: Seq<(String, String)>) -> Seq<(Seq<char>, Seq<char>)> {
    env.map_values(|pair: (String, String)| (pair.0@, pair.1@))
}

/// The environment of a shell on a terminal of some kind.
pub open spec fn shell_env(term: Seq<char>) -> Seq<(Seq<char>, Seq<char>)> {
    seq![
        (
            "PATH"@,
            "/usr/local/sbin:/usr/local/bin:/sbin:/bin:/usr/sbin:/usr/bin:/root/bin"@,
        ),
        ("LANG"@, "en_US.UTF-8"@),
        ("HISTSIZE"@, "1000"@),
        ("PWD"@, "/Users/zhuming"@),
        ("USER"@, "zhuming"@),
        ("HOME"@, "/Users/zhuming"@),
        ("TERM"@, term),
    ]
}

fn env_pair(name: &str, value: &str) -> (pair: (String, String))
    ensures
        pair.0@ == name@,
        pair.1@ == value@,
{
    (name.to_owned(), value.to_owned())
}

/// How long a session waits, in seconds.
#[derive(Debug, PartialEq, Eq, Structural, Clone, Copy)]
pub struct SessionTimes {
    /// Before a silent client is given up.
    pub inactivity: u64,
    /// Before a client learns that it was rejected.
    pub auth_rejection: u64,
    /// The same for its first attempt, which only asks what is on offer.
    pub auth_rejection_initial: u64,
}

/// The times of every session.
pub fn session_times() -> (times: SessionTimes)
    ensures
        times == (SessionTimes { inactivity: 3600, auth_rejection: 3, auth_rejection_initial: 0 }),
{
    SessionTimes { inactivity: 3600, auth_rejection: 3, auth_rejection_initial: 0 }
}

/// What a request for a subsystem comes to.
pub enum Subsystem<C> {
    /// It is granted, and SFTP is spoken on the channel.
    Sftp(C),
    /// It is refused.
    Refused,
}

/// A session: its open channels that nothing uses yet, by number, the key of the client
/// that is let in, and its terminal.
pub struct Server<C> {
    pub clients: HashMap<u32, C>,
    pub auth_client_key: PublicKey,
    pub pty: Option<i32>,
}

impl<C> Server<C> {
    /// A session for the client with the key.
    pub fn new(auth_client_key: PublicKey) -> (server: Self)
        ensures
            server.clients@ == Map::<u32, C>::empty(),
            server.auth_client_key == auth_client_key,
            server.pty is None,
    {
        Server { clients: HashMap::new(), auth_client_key: auth_client_key, pty: None }
    }

    /// Takes a channel out, for its one use.
    pub fn get_channel(&mut self, channel_id: u32) -> (channel: C)
        requires
            old(self).clients@.contains_key(channel_id),
        ensures
            channel == old(self).clients@[channel_id],
            final(self).clients@ == old(self).clients@.remove(channel_id),
            final(self).auth_client_key == old(self).auth_client_key,
            final(self).pty == old(self).pty,
    {
        broadcast use vstd::std_specs::hash::group_hash_axioms;

        self.clients.remove(&channel_id).unwrap()
    }

    /// Keeps a channel that the client opens. It is always granted.
    pub fn channel_open_session(&mut self, channel_id: u32, channel: C) -> (granted: bool)
        ensures
            granted,
            final(self).clients@ == old(self).clients@.insert(channel_id, channel),
            final(self).auth_client_key == old(self).auth_client_key,
            final(self).pty == old(self).pty,
    {
        broadcast use vstd::std_specs::hash::group_hash_axioms;

        let _ = self.clients.insert(channel_id, channel);
        true
    }

    /// Whether a client that offers a key may go on: only with the key that is known.
    pub fn auth_publickey_offered(&self, public_key: &PublicKey) -> (verdict: AuthVerdict)
        ensures
            verdict == (if key_bytes(self.auth_client_key) == key_bytes(*public_key) {
                AuthVerdict::Accept
            } else {
                AuthVerdict::Reject
            }),
    {
        judge_key(same_key(&self.auth_client_key, public_key))
    }

    /// Whether a client that has shown to hold the key it offered is let in. The key
    /// was judged when it was offered.
    pub fn auth_publickey(&self) -> (verdict: AuthVerdict)
        ensures
            verdict == AuthVerdict::Accept,
    {
        AuthVerdict::Accept
    }

    /// Decides on a request for a subsystem: SFTP is granted on an open channel, all
    /// others are refused.
    pub fn subsystem_request(&mut self, channel_id: u32, name: &str) -> (subsystem: Subsystem<C>)
        requires
            name@ == "sftp"@ ==> old(self).clients@.contains_key(channel_id),
        ensures
            final(self).auth_client_key == old(self).auth_client_key,
            final(self).pty == old(self).pty,
            (if name@ == "sftp"@ {
                &&& subsystem == Subsystem::Sftp(old(self).clients@[channel_id])
                &&& final(self).clients@ == old(self).clients@.remove(channel_id)
            } else {
                &&& subsystem is Refused
                &&& final(self).clients@ == old(self).clients@
            }),
    {
        if name.to_owned() == "sftp".to_owned() {
            Subsystem::Sftp(self.get_channel(channel_id))
        } else {
            Subsystem::Refused
        }
    }

    /// The terminal to resize, and its new size. The pixels are not passed on.
    pub fn window_change_request(
        &self,
        col_width: u32,
        row_height: u32,
        pix_width: u32,
        pix_height: u32,
    ) -> (change: (i32, WindowSize))
        requires
            self.pty is Some,
        ensures
            change.0 == self.pty->0,
            change.1.rows == low_half(row_height),
            change.1.cols == low_half(col_width),
            change.1.width == 0,
            change.1.height == 0,
    {
        let size = WindowSize { rows: low(row_height), cols: low(col_width), width: 0, height: 0 };
        (self.pty.unwrap(), size)
    }

    /// The shell for a client that asks for a terminal, and the size of the terminal.
    pub fn pty_request(
        &self,
        term: &str,
        col_width: u32,
        row_height: u32,
        pix_width: u32,
        pix_height: u32,
    ) -> (plan: ShellPlan)
        ensures
            plan.program@ == "/bin/bash"@,
            pairs(plan.env@) == shell_env(term@),
            plan.size.rows == low_half(row_height),
            plan.size.cols == low_half(col_width),
            plan.size.width == low_half(pix_width),
            plan.size.height == low_half(pix_height),
    {
        let mut env: Vec<(String, String)> = Vec::new();
        env.push(
            env_pair("PATH", "/usr/local/sbin:/usr/local/bin:/sbin:/bin:/usr/sbin:/usr/bin:/root/bin"),
        );
        env.push(env_pair("LANG", "en_US.UTF-8"));
        env.push(env_pair("HISTSIZE", "1000"));
        env.push(env_pair("PWD", "/Users/zhuming"));
        env.push(env_pair("USER", "zhuming"));
        env.push(env_pair("HOME", "/Users/zhuming"));
        env.push(env_pair("TERM", term));
        assert(pairs(env@) =~= shell_env(term@));
        let size = WindowSize {
            rows: low(row_height),
            cols: low(col_width),
            width: low(pix_width),
            height: low(pix_height),
        };
        ShellPlan { program: "/bin/bash".to_owned(), env: env, size: size }
    }

    /// Hands the channel of a terminal over, and keeps the terminal that was opened for
    /// it.
    pub fn pty_opened(&mut self, channel_id: u32, master: i32) -> (channel: C)
        requires
            old(self).clients@.contains_key(channel_id),
        ensures
            channel == old(self).clients@[channel_id],
            final(self).clients@ == old(self).clients@.remove(channel_id),
            final(self).auth_client_key == old(self).auth_client_key,
            final(self).pty == Some(master),
    {
        let channel = self.get_channel(channel_id);
        self.pty = Some(master);
        channel
    }
}

/// The verdict on an offered key, by whether it is the known one.
pub fn judge_key(matches: bool) -> (verdict: AuthVerdict)
    ensures
        verdict == (if matches {
            AuthVerdict::Accept
        } else {
            AuthVerdict::Reject
        }),
{
    if matches {
        AuthVerdict::Accept
    } else {
        AuthVerdict::Reject
    }
}

/// A channel that was opened is there to be used, once: it is gone afterwards. Neither
/// touches the other channels.
pub proof fn channel_is_used_once<C>(clients: Map<u32, C>, id: u32, channel: C, other: u32)
    requires
        other != id,
    ensures
        clients.insert(id, channel).contains_key(id),
        clients.insert(id, channel)[id] == channel,
        !clients.insert(id, channel).remove(id).contains_key(id),
        clients.insert(id, channel).contains_key(other) == clients.contains_key(other),
        clients.contains_key(other) ==> clients.insert(id, channel)[other] == clients[other],
        clients.remove(id).contains_key(other) == clients.contains_key(other),
        clients.contains_key(other) ==> clients.remove(id)[other] == clients[other],
{
}

/// The channels and the terminal of a session, as a value.
#[verifier::ext_equal]
pub struct ServerState<C> {
    pub clients: Map<u32, C>,
    pub pty: Option<i32>,
}

/// Something that happens to a session.
pub enum SessionEvent<C> {
    /// A channel is opened.
    Open { id: u32, channel: C },
    /// A channel is taken for its use.
    Take { id: u32 },
    /// A channel is taken for a terminal that was opened.
    Terminal { id: u32, master: i32 },
    /// A request is refused, or only looks at the session.
    Look { id: u32 },
}

impl<C> SessionEvent<C> {
    /// Whether the event opens the channel with the number.
    pub open spec fn opens(self, number: u32) -> bool {
        self matches SessionEvent::Open { id, .. } && id == number
    }

    /// Whether the event takes the channel with the number.
    pub open spec fn takes(self, number: u32) -> bool {
        match self {
            SessionEvent::Take { id } => id == number,
            SessionEvent::Terminal { id, .. } => id == number,
            _ => false,
        }
    }

    /// The session after the event.
    pub open spec fn applied(self, state: ServerState<C>) -> ServerState<C> {
        match self {
            SessionEvent::Open { id, channel } => ServerState {
                clients: state.clients.insert(id, channel),
                ..state
            },
            SessionEvent::Take { id } => ServerState { clients: state.clients.remove(id), ..state },
            SessionEvent::Terminal { id, master } => ServerState {
                clients: state.clients.remove(id),
                pty: Some(master),
            },
            SessionEvent::Look { .. } => state,
        }
    }
}

/// A session after some events, one after the other.
pub open spec fn after_events<C>(state: ServerState<C>, events: Seq<SessionEvent<C>>) -> ServerState<C>
    decreases events.len(),
{
    if events.len() == 0 {
        state
    } else {
        events.last().applied(after_events(state, events.drop_last()))
    }
}

/// A channel that was opened is still there, and the same, after any events that neither
/// take it nor open another under its number.
pub proof fn opened_channel_stays<C>(
    state: ServerState<C>,
    events: Seq<SessionEvent<C>>,
    id: u32,
)
    requires
        state.clients.contains_key(id),
        forall|i: int|
            0 <= i < events.len() ==> !(#[trigger] events[i]).takes(id) && !events[i].opens(id),
    ensures
        after_events(state, events).clients.contains_key(id),
        after_events(state, events).clients[id] == state.clients[id],
    decreases events.len(),
{
    if events.len() > 0 {
        let earlier = events.drop_last();
        assert forall|i: int| 0 <= i < earlier.len() implies !(#[trigger] earlier[i]).takes(id)
            && !earlier[i].opens(id) by {
            assert(earlier[i] == events[i]);
        }
        opened_channel_stays(state, earlier, id);
        assert(!events[events.len() - 1].takes(id));
    }
}

/// A channel that was taken, or never opened, is not there after any events until one is
/// opened under its number: no channel is used twice.
pub proof fn taken_channel_stays_away<C>(
    state: ServerState<C>,
    events: Seq<SessionEvent<C>>,
    id: u32,
)
    requires
        !state.clients.contains_key(id),
        forall|i: int| 0 <= i < events.len() ==> !(#[trigger] events[i]).opens(id),
    ensures
        !after_events(state, events).clients.contains_key(id),
    decreases events.len(),
{
    if events.len() > 0 {
        let earlier = events.drop_last();
        assert forall|i: int| 0 <= i < earlier.len() implies !(#[trigger] earlier[i]).opens(id) by {
            assert(earlier[i] == events[i]);
        }
        taken_channel_stays_away(state, earlier, id);
        assert(!events[events.len() - 1].opens(id));
    }
}

/// The terminal of a session, which is the one that is resized, is the one that was opened
/// last.
pub proof fn terminal_is_the_one_last_opened<C>(
    state: ServerState<C>,
    events: Seq<SessionEvent<C>>,
    last: int,
)
    requires
        0 <= last < events.len(),
        events[last] is Terminal,
        forall|i: int| last < i < events.len() ==> !(#[trigger] events[i] is Terminal),
    ensures
        after_events(state, events).pty == Some(events[last]->Terminal_master),
    decreases events.len(),
{
    if last < events.len() - 1 {
        let earlier = events.drop_last();
        assert forall|i: int| last < i < earlier.len() implies !(
        #[trigger] earlier[i] is Terminal) by {
            assert(earlier[i] == events[i]);
        }
        terminal_is_the_one_last_opened(state, earlier, last);
        assert(!(events[events.len() - 1] is Terminal));
    }
}

/// A terminal of an ordinary size gets just the size that the client asks for.
pub proof fn ordinary_sizes_are_kept(number: u32)
    requires
        number < 0x1_0000,
    ensures
        low_half(number) == number,
{
}

} // verus!
