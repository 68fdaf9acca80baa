//! What the operations of an SSH session promise their callers, for every input.

use crate::server::{
    judge_key, key_bytes, pairs, session_times, shell_env, AuthVerdict, Server, SessionTimes,
    ShellPlan, Subsystem, WindowSize,
};
use russh_keys::key::PublicKey;
use vstd::prelude::*;

verus! {

/// A new session knows the one key, and has neither channels nor a terminal.
pub proof fn new_session_is_bare<C>(key: PublicKey, server: Server<C>, id: u32)
    requires
        call_ensures(Server::<C>::new, (key,), server),
    ensures
        server.auth_client_key == key,
        !server.clients@.contains_key(id),
        server.pty is None,
{
}

/// A client may go on just where the key that it offers is the known one, whatever
/// channels and terminal the session has.
pub proof fn only_the_known_key_may_go_on<C>(
    server: Server<C>,
    offered: PublicKey,
    verdict: AuthVerdict,
)
    requires
        call_ensures(Server::<C>::auth_publickey_offered, (&server, &offered), verdict),
    ensures
        verdict == AuthVerdict::Accept <==> key_bytes(offered) == key_bytes(
            server.auth_client_key,
        ),
        verdict == AuthVerdict::Reject <==> key_bytes(offered) != key_bytes(
            server.auth_client_key,
        ),
{
}

/// A key is accepted just where it matches, and a client that was let go on is let in.
pub proof fn matching_key_is_accepted<C>(
    matching: bool,
    judged: AuthVerdict,
    server: Server<C>,
    shown: AuthVerdict,
)
    requires
        call_ensures(judge_key, (matching,), judged),
        call_ensures(Server::<C>::auth_publickey, (&server,), shown),
    ensures
        judged == AuthVerdict::Accept <==> matching,
        judged == AuthVerdict::Reject <==> !matching,
        shown == AuthVerdict::Accept,
{
}

/// A silent client is given up after an hour, and one that was rejected learns of it after
/// three seconds, but at once the first time.
pub proof fn session_waits_as_long_as_it_should(times: SessionTimes)
    requires
        call_ensures(session_times, (), times),
    ensures
        times.inactivity == 60 * 60,
        times.auth_rejection == 3,
        times.auth_rejection_initial == 0,
{
}

/// To open a channel always goes well, keeps that channel under its number, and touches
/// nothing else.
pub proof fn open_keeps_the_channel<C>(
    server: &mut Server<C>,
    id: u32,
    channel: C,
    granted: bool,
    other: u32,
)
    requires
        call_ensures(Server::<C>::channel_open_session, (server, id, channel), granted),
    ensures
        granted,
        final(server).clients@.contains_key(id),
        final(server).clients@[id] == channel,
        other != id ==> (final(server).clients@.contains_key(other)
            <==> old(server).clients@.contains_key(other)),
        other != id && old(server).clients@.contains_key(other) ==> final(server).clients@[other]
            == old(server).clients@[other],
        final(server).auth_client_key == old(server).auth_client_key,
        final(server).pty == old(server).pty,
{
}

/// To take a channel gives the one that was opened under the number, leaves none there, and
/// touches nothing else.
pub proof fn take_gives_the_channel<C>(server: &mut Server<C>, id: u32, channel: C, other: u32)
    requires
        old(server).clients@.contains_key(id),
        call_ensures(Server::<C>::get_channel, (server, id), channel),
    ensures
        channel == old(server).clients@[id],
        !final(server).clients@.contains_key(id),
        other != id ==> (final(server).clients@.contains_key(other)
            <==> old(server).clients@.contains_key(other)),
        other != id && old(server).clients@.contains_key(other) ==> final(server).clients@[other]
            == old(server).clients@[other],
        final(server).auth_client_key == old(server).auth_client_key,
        final(server).pty == old(server).pty,
{
}

/// SFTP is granted on the channel that was opened under the number, which is taken; any
/// other subsystem is refused and touches nothing.
pub proof fn sftp_is_the_subsystem<C>(
    server: &mut Server<C>,
    id: u32,
    name: &str,
    subsystem: Subsystem<C>,
    other: u32,
)
    requires
        name@ == "sftp"@ ==> old(server).clients@.contains_key(id),
        call_ensures(Server::<C>::subsystem_request, (server, id, name), subsystem),
    ensures
        subsystem is Sftp <==> name@ == "sftp"@,
        subsystem matches Subsystem::Sftp(channel) ==> channel == old(server).clients@[id]
            && !final(server).clients@.contains_key(id),
        subsystem is Refused ==> final(server).clients@ == old(server).clients@,
        other != id ==> (final(server).clients@.contains_key(other)
            <==> old(server).clients@.contains_key(other)),
        other != id && old(server).clients@.contains_key(other) ==> final(server).clients@[other]
            == old(server).clients@[other],
        final(server).auth_client_key == old(server).auth_client_key,
        final(server).pty == old(server).pty,
{
}

/// A number is given to a terminal by its lowest sixteen bits: what is left out is a
/// multiple of 65536.
pub open spec fn fits_as(number: u32, half: u16) -> bool {
    exists|k: int| number as int == #[trigger] (k * 0x1_0000) + half as int
}

/// A number that fits is given as it is.
pub proof fn small_numbers_fit_as_they_are(number: u32, half: u16)
    requires
        fits_as(number, half),
    ensures
        number < 0x1_0000 ==> half as int == number as int,
        half as int == number as int % 0x1_0000,
{
    let k = choose|k: int| number as int == #[trigger] (k * 0x1_0000) + half as int;
    assert(number as int % 0x1_0000 == half as int);
}

/// The size of a window is given by rows and columns; its pixels are left out. It is the
/// terminal of the session that gets it.
pub proof fn resize_gives_rows_and_columns<C>(
    server: Server<C>,
    cols: u32,
    rows: u32,
    width: u32,
    height: u32,
    change: (i32, WindowSize),
)
    requires
        server.pty is Some,
        call_ensures(
            Server::<C>::window_change_request,
            (&server, cols, rows, width, height),
            change,
        ),
    ensures
        Some(change.0) == server.pty,
        fits_as(rows, change.1.rows),
        fits_as(cols, change.1.cols),
        change.1.width == 0,
        change.1.height == 0,
{
    assert(rows as int == (rows as int / 0x1_0000) * 0x1_0000 + change.1.rows as int);
    assert(cols as int == (cols as int / 0x1_0000) * 0x1_0000 + change.1.cols as int);
}

/// A terminal has the size that the client asks for, in characters and in pixels.
pub proof fn terminal_has_the_size_asked_for<C>(
    server: Server<C>,
    term: &str,
    cols: u32,
    rows: u32,
    width: u32,
    height: u32,
    plan: ShellPlan,
)
    requires
        call_ensures(Server::<C>::pty_request, (&server, term, cols, rows, width, height), plan),
    ensures
        plan.program@ == "/bin/bash"@,
        fits_as(rows, plan.size.rows),
        fits_as(cols, plan.size.cols),
        fits_as(width, plan.size.width),
        fits_as(height, plan.size.height),
{
    assert(rows as int == (rows as int / 0x1_0000) * 0x1_0000 + plan.size.rows as int);
    assert(cols as int == (cols as int / 0x1_0000) * 0x1_0000 + plan.size.cols as int);
    assert(width as int == (width as int / 0x1_0000) * 0x1_0000 + plan.size.width as int);
    assert(height as int == (height as int / 0x1_0000) * 0x1_0000 + plan.size.height as int);
}

/// The names in the environment of a shell are different texts.
proof fn lemma_names_differ()
    ensures
        "PATH"@.len() == 4 && "PATH"@[0] == 'P',
        "LANG"@.len() == 4 && "LANG"@[0] == 'L',
        "HISTSIZE"@.len() == 8,
        "PWD"@.len() == 3,
        "USER"@.len() == 4 && "USER"@[0] == 'U',
        "HOME"@.len() == 4 && "HOME"@[0] == 'H',
        "TERM"@.len() == 4 && "TERM"@[0] == 'T',
{
    reveal_strlit("PATH");
    reveal_strlit("LANG");
    reveal_strlit("HISTSIZE");
    reveal_strlit("PWD");
    reveal_strlit("USER");
    reveal_strlit("HOME");
    reveal_strlit("TERM");
}

/// The environment of a shell gives a name a value: it has the pair, and no other pair with
/// that name.
pub open spec fn env_gives(env: Seq<(String, String)>, name: Seq<char>, value: Seq<char>) -> bool {
    &&& exists|i: int| 0 <= i < env.len() && (#[trigger] env[i]).0@ == name && env[i].1@ == value
    &&& forall|i: int| 0 <= i < env.len() && (#[trigger] env[i]).0@ == name ==> env[i].1@ == value
}

/// No name stands twice in the environment of a shell.
pub open spec fn env_is_plain(env: Seq<(String, String)>) -> bool {
    forall|i: int, j: int|
        0 <= i < j < env.len() ==> (#[trigger] env[i]).0@ != (#[trigger] env[j]).0@
}

/// The shell knows the terminal as what the client named it, for every name: its
/// environment has just one entry for it, with just that value.
pub proof fn shell_knows_the_terminal<C>(
    server: Server<C>,
    term: &str,
    cols: u32,
    rows: u32,
    width: u32,
    height: u32,
    plan: ShellPlan,
)
    requires
        call_ensures(Server::<C>::pty_request, (&server, term, cols, rows, width, height), plan),
    ensures
        env_gives(plan.env@, "TERM"@, term@),
        env_is_plain(plan.env@),
{
    shell_has_its_environment(server, term, cols, rows, width, height, plan);
}

/// Besides the terminal, the environment of a shell gives the search path, the language,
/// the size of the history, the directory and the user, and nothing more.
pub proof fn shell_has_its_environment<C>(
    server: Server<C>,
    term: &str,
    cols: u32,
    rows: u32,
    width: u32,
    height: u32,
    plan: ShellPlan,
)
    requires
        call_ensures(Server::<C>::pty_request, (&server, term, cols, rows, width, height), plan),
    ensures
        plan.env@.len() == 7,
        env_is_plain(plan.env@),
        env_gives(
            plan.env@,
            "PATH"@,
            "/usr/local/sbin:/usr/local/bin:/sbin:/bin:/usr/sbin:/usr/bin:/root/bin"@,
        ),
        env_gives(plan.env@, "LANG"@, "en_US.UTF-8"@),
        env_gives(plan.env@, "HISTSIZE"@, "1000"@),
        env_gives(plan.env@, "PWD"@, "/Users/zhuming"@),
        env_gives(plan.env@, "USER"@, "zhuming"@),
        env_gives(plan.env@, "HOME"@, "/Users/zhuming"@),
        env_gives(plan.env@, "TERM"@, term@),
{
    lemma_names_differ();
    let env = plan.env@;
    let given = pairs(env);
    assert(given == shell_env(term@));
    assert(env.len() == given.len());
    assert forall|i: int| 0 <= i < env.len() implies (#[trigger] env[i]).0@ == given[i].0
        && env[i].1@ == given[i].1 by {
        assert(given[i] == (env[i].0@, env[i].1@));
    }
    assert(env[0].0@ == "PATH"@ && env[1].0@ == "LANG"@ && env[2].0@ == "HISTSIZE"@);
    assert(env[3].0@ == "PWD"@ && env[4].0@ == "USER"@ && env[5].0@ == "HOME"@);
    assert(env[6].0@ == "TERM"@);
}

/// Clients on different terminals get different environments, and the size of a terminal
/// has no part in them.
pub proof fn environment_goes_by_the_terminal<C>(
    server: Server<C>,
    term: &str,
    other: &str,
    size: (u32, u32, u32, u32),
    other_size: (u32, u32, u32, u32),
    plan: ShellPlan,
    other_plan: ShellPlan,
)
    requires
        call_ensures(
            Server::<C>::pty_request,
            (&server, term, size.0, size.1, size.2, size.3),
            plan,
        ),
        call_ensures(
            Server::<C>::pty_request,
            (&server, other, other_size.0, other_size.1, other_size.2, other_size.3),
            other_plan,
        ),
    ensures
        pairs(plan.env@) == pairs(other_plan.env@) <==> term@ == other@,
{
    assert(shell_env(term@)[6].1 == term@);
    assert(shell_env(other@)[6].1 == other@);
}

/// The terminal that was opened is kept, and its channel, the one that was opened under the
/// number, is taken. Nothing else is touched.
pub proof fn opened_terminal_is_kept<C>(
    server: &mut Server<C>,
    id: u32,
    master: i32,
    channel: C,
    other: u32,
)
    requires
        old(server).clients@.contains_key(id),
        call_ensures(Server::<C>::pty_opened, (server, id, master), channel),
    ensures
        channel == old(server).clients@[id],
        !final(server).clients@.contains_key(id),
        other != id ==> (final(server).clients@.contains_key(other)
            <==> old(server).clients@.contains_key(other)),
        other != id && old(server).clients@.contains_key(other) ==> final(server).clients@[other]
            == old(server).clients@[other],
        final(server).auth_client_key == old(server).auth_client_key,
        final(server).pty == Some(master),
{
}

/// A window is resized on the terminal that was opened last.
pub proof fn resize_reaches_the_opened_terminal<C>(
    server: &mut Server<C>,
    id: u32,
    master: i32,
    channel: C,
    size: (u32, u32, u32, u32),
    change: (i32, WindowSize),
)
    requires
        old(server).clients@.contains_key(id),
        call_ensures(Server::<C>::pty_opened, (server, id, master), channel),
        call_ensures(
            Server::<C>::window_change_request,
            (&*final(server), size.0, size.1, size.2, size.3),
            change,
        ),
    ensures
        change.0 == master,
{
}

} // verus!
