//! The playback controller: it owns at most one player process, says how the
//! player is to be started and stopped, and words the control messages.
//!
//! The controller decides; it does not touch processes or sockets itself.
//! Each operation returns the step its caller has to carry out, and the
//! caller reports a started process back with [`AudioManager::install`].

use crate::stream_url::{
    is_web_scheme, judge, parse_parts, parsed_parts, verdict, UrlError, UrlParts,
};
use crate::text::{decimal, push_decimal, texts};
use crate::volume::{clamp_level, clamped};
use vstd::prelude::*;
use vstd::string::*;

verus! {

/// The player executable.
pub open spec fn player_program() -> Seq<char> {
    "mpv"@
}

/// Where the player listens for control messages.
pub open spec fn control_socket_path() -> Seq<char> {
    "/tmp/cosmic-radio-mpv.sock"@
}

/// The player executable.
pub fn player_program_name() -> (name: &'static str)
    ensures
        name@ == player_program(),
{
    "mpv"
}

/// Where the player listens for control messages.
pub fn control_socket() -> (path: &'static str)
    ensures
        path@ == control_socket_path(),
{
    "/tmp/cosmic-radio-mpv.sock"
}

/// The player's arguments for a stream: no video, the starting volume, a
/// volume ceiling of twice unity, loudness normalisation, the control socket,
/// and the stream itself last. The starting volume is written as it is
/// given; the ceiling is the player's to keep.
pub open spec fn player_args_spec(url: Seq<char>, volume: u8) -> Seq<Seq<char>> {
    seq![
        "--no-video"@,
        "--volume="@ + decimal(volume as nat),
        "--volume-max=200"@,
        "--af=lavfi=[dynaudnorm]"@,
        "--input-ipc-server="@ + control_socket_path(),
        url,
    ]
}

/// The player's arguments for a stream.
pub fn player_args(url: &str, volume: u8) -> (args: Vec<String>)
    ensures
        texts(args@) == player_args_spec(url@, volume),
{
    let mut level = String::from_str("--volume=");
    push_decimal(&mut level, volume);
    let mut socket = String::from_str("--input-ipc-server=");
    socket.append(control_socket());
    let mut args: Vec<String> = Vec::new();
    args.push(String::from_str("--no-video"));
    args.push(level);
    args.push(String::from_str("--volume-max=200"));
    args.push(String::from_str("--af=lavfi=[dynaudnorm]"));
    args.push(socket);
    args.push(String::from_str(url));
    assert(texts(args@) =~= player_args_spec(url@, volume));
    args
}

/// The control message that sets the player's volume: one JSON object on a
/// line of its own, with the level brought into range first.
pub open spec fn volume_command_spec(level: u8) -> Seq<char> {
    "{\"command\": [\"set_property\", \"volume\", "@ + decimal(clamped(level) as nat) + "]}\n"@
}

/// The control message that sets the player's volume to `level`.
pub fn volume_command(level: u8) -> (message: String)
    ensures
        message@ == volume_command_spec(level),
{
    let mut message = String::from_str("{\"command\": [\"set_property\", \"volume\", ");
    push_decimal(&mut message, clamp_level(level));
    message.append("]}\n");
    message
}

/// What the caller of [`AudioManager::play`] has to do.
#[derive(Debug)]
pub enum PlayStep<H> {
    /// The URL was turned away: nothing is to be done, and nothing changed.
    Rejected(UrlError),
    /// Terminate `previous`, if there is one, and wait for it to exit; remove
    /// the file `socket`; start `program` with `args`; where that succeeds,
    /// hand the new process to [`AudioManager::install`].
    Launch { previous: Option<H>, socket: &'static str, program: &'static str, args: Vec<String> },
}

/// A [`PlayStep`] with its texts as sequences of characters.
pub ghost enum PlayPlan<H> {
    Rejected(UrlError),
    Launch { previous: Option<H>, socket: Seq<char>, program: Seq<char>, args: Seq<Seq<char>> },
}

impl<H> PlayStep<H> {
    pub open spec fn view(&self) -> PlayPlan<H> {
        match self {
            PlayStep::Rejected(e) => PlayPlan::Rejected(*e),
            PlayStep::Launch { previous, socket, program, args } => PlayPlan::Launch {
                previous: *previous,
                socket: socket@,
                program: program@,
                args: texts(args@),
            },
        }
    }
}

/// What the caller of [`AudioManager::stop`] has to do: terminate
/// `previous`, if there is one, and wait for it to exit; then, in any case,
/// remove the file `socket`, where it is still there.
#[derive(Debug)]
pub struct StopStep<H> {
    pub previous: Option<H>,
    pub socket: &'static str,
}

/// What the caller of [`AudioManager::set_volume`] has to do.
#[derive(Debug, Clone)]
pub enum VolumeStep {
    /// No player is owned: nothing is to be sent, and no connection made.
    NoPlayer,
    /// A player is owned but its control socket is not there: nothing is to
    /// be sent.
    NoSocket,
    /// Connect to `socket`, write `message`, and do not wait for an answer.
    Send { socket: &'static str, message: String },
}

/// A [`VolumeStep`] with its texts as sequences of characters.
pub ghost enum VolumePlan {
    NoPlayer,
    NoSocket,
    Send { socket: Seq<char>, message: Seq<char> },
}

impl VolumeStep {
    pub open spec fn view(&self) -> VolumePlan {
        match self {
            VolumeStep::NoPlayer => VolumePlan::NoPlayer,
            VolumeStep::NoSocket => VolumePlan::NoSocket,
            VolumeStep::Send { socket, message } => VolumePlan::Send {
                socket: socket@,
                message: message@,
            },
        }
    }
}

/// The step that `play` takes with `owned` in the slot and a URL judged as
/// `judgement`.
pub open spec fn play_plan<H>(
    owned: Option<H>,
    judgement: Result<(), UrlError>,
    url: Seq<char>,
    volume: u8,
) -> PlayPlan<H> {
    match judgement {
        Err(e) => PlayPlan::Rejected(e),
        Ok(_) => PlayPlan::Launch {
            previous: owned,
            socket: control_socket_path(),
            program: player_program(),
            args: player_args_spec(url, volume),
        },
    }
}

/// What the slot holds after `play`: it is emptied exactly where the URL is
/// accepted.
pub open spec fn slot_after_play<H>(owned: Option<H>, judgement: Result<(), UrlError>) -> Option<H> {
    match judgement {
        Err(_) => owned,
        Ok(_) => None,
    }
}

/// The step that `set_volume` takes with `owned` in the slot.
pub open spec fn volume_plan<H>(owned: Option<H>, level: u8, socket_present: bool) -> VolumePlan {
    if owned is None {
        VolumePlan::NoPlayer
    } else if !socket_present {
        VolumePlan::NoSocket
    } else {
        VolumePlan::Send { socket: control_socket_path(), message: volume_command_spec(level) }
    }
}

/// The playback controller: a slot for the one player process that may
/// exist. `H` is the caller's handle on a process. The slot is reached only
/// through the operations below, which take a handle out or put one in.
pub struct AudioManager<H> {
    slot: Option<H>,
}

impl<H> AudioManager<H> {
    /// The process that the controller owns, if any.
    pub closed spec fn owned(&self) -> Option<H> {
        self.slot
    }

    /// A controller that owns no process.
    pub fn new() -> (manager: Self)
        ensures
            manager.owned() is None,
    {
        AudioManager { slot: None }
    }

    /// Whether a process is owned.
    pub fn is_playing(&self) -> (r: bool)
        ensures
            r == self.owned().is_some(),
    {
        self.slot.is_some()
    }

    /// Starts a stream, given what parsing its URL gave (`None` where it did
    /// not parse). A URL that is turned away changes nothing. For one that is
    /// accepted the slot is emptied, and the step hands out the process that
    /// was in it together with the command line for the new one.
    pub fn play_parsed(&mut self, parts: Option<&UrlParts>, url: &str, volume: u8) -> (step:
        PlayStep<H>)
        ensures
            step@ == play_plan(
                old(self).owned(),
                verdict(
                    match parts {
                        Some(p) => Some(p@),
                        None => None,
                    },
                ),
                url@,
                volume,
            ),
            final(self).owned() == slot_after_play(
                old(self).owned(),
                verdict(
                    match parts {
                        Some(p) => Some(p@),
                        None => None,
                    },
                ),
            ),
    {
        match judge(parts) {
            Err(e) => PlayStep::Rejected(e),
            Ok(_) => {
                let previous = self.slot.take();
                PlayStep::Launch {
                    previous,
                    socket: control_socket(),
                    program: player_program_name(),
                    args: player_args(url, volume),
                }
            },
        }
    }

    /// Starts a stream: parses `url`, then goes on as
    /// [`AudioManager::play_parsed`] does.
    pub fn play(&mut self, url: &str, volume: u8) -> (step: PlayStep<H>)
        ensures
            step@ == play_plan(old(self).owned(), verdict(parsed_parts(url@)), url@, volume),
            final(self).owned() == slot_after_play(old(self).owned(), verdict(parsed_parts(url@))),
    {
        let parts = parse_parts(url);
        self.play_parsed(parts.as_ref(), url, volume)
    }

    /// Takes ownership of a process that was started. Returns the process
    /// that was owned until now, if there was one: the caller terminates it.
    pub fn install(&mut self, handle: H) -> (displaced: Option<H>)
        ensures
            final(self).owned() == Some(handle),
            displaced == old(self).owned(),
    {
        let displaced = self.slot.take();
        self.slot = Some(handle);
        displaced
    }

    /// Stops playback: empties the slot and hands out what was in it.
    /// Without an owned process this changes nothing, however often it is
    /// called; the step still names the socket file for removal.
    pub fn stop(&mut self) -> (step: StopStep<H>)
        ensures
            final(self).owned() is None,
            step.previous == old(self).owned(),
            step.socket@ == control_socket_path(),
    {
        StopStep { previous: self.slot.take(), socket: control_socket() }
    }

    /// Decides what a volume change takes. `socket_present` says whether the
    /// control socket's file exists.
    pub fn set_volume(&self, level: u8, socket_present: bool) -> (step: VolumeStep)
        ensures
            step@ == volume_plan(self.owned(), level, socket_present),
    {
        if self.slot.is_none() {
            VolumeStep::NoPlayer
        } else if !socket_present {
            VolumeStep::NoSocket
        } else {
            VolumeStep::Send { socket: control_socket(), message: volume_command(level) }
        }
    }
}

/// The controller together with what its caller keeps alive: the player
/// processes, each with the stream it plays, and the control socket's file.
/// It is the state of a caller that carries out every step it is given.
#[verifier::reject_recursive_types(H)]
pub ghost struct World<H> {
    pub owned: Option<H>,
    pub live: Map<H, Seq<char>>,
    /// Whether the socket file may be there.
    pub socket: bool,
}

/// `live` without the process `handle`, if it names one.
pub open spec fn without<H>(live: Map<H, Seq<char>>, handle: Option<H>) -> Map<H, Seq<char>> {
    match handle {
        Some(h) => live.remove(h),
        None => live,
    }
}

impl<H> World<H> {
    /// The processes alive are exactly the owned one, if any, and the socket
    /// file is there only while a process is owned.
    pub open spec fn well_kept(self) -> bool {
        &&& match self.owned {
            Some(h) => self.live.dom() =~= set![h],
            None => self.live.dom() =~= Set::<H>::empty(),
        }
        &&& self.socket ==> self.owned is Some
    }

    /// The world after `play` and its step: `spawned` is the process that
    /// starting the player gave, `None` where it could not be started. The
    /// stream of a new process is the last of its arguments, and a process
    /// that runs makes the socket file.
    pub open spec fn play(
        self,
        judgement: Result<(), UrlError>,
        url: Seq<char>,
        volume: u8,
        spawned: Option<H>,
    ) -> World<H> {
        match play_plan(self.owned, judgement, url, volume) {
            PlayPlan::Rejected(_) => self,
            PlayPlan::Launch { previous, socket, program, args } => {
                let rest = without(self.live, previous);
                match spawned {
                    Some(h) => World {
                        owned: Some(h),
                        live: rest.insert(h, args.last()),
                        socket: true,
                    },
                    None => World { owned: None, live: rest, socket: false },
                }
            },
        }
    }

    /// The world after `stop` and its step.
    pub open spec fn stop(self) -> World<H> {
        World { owned: None, live: without(self.live, self.owned), socket: false }
    }
}

/// A URL that is turned away starts nothing: the step is `Rejected`, the
/// slot keeps what it had, and the world is as before.
pub proof fn lemma_rejected_url_starts_nothing<H>(
    world: World<H>,
    error: UrlError,
    url: Seq<char>,
    volume: u8,
    spawned: Option<H>,
)
    ensures
        play_plan(world.owned, Err(error), url, volume) == PlayPlan::<H>::Rejected(error),
        slot_after_play(world.owned, Err(error)) == world.owned,
        world.play(Err(error), url, volume, spawned) == world,
{
}

/// The player is started exactly for the URLs that are accepted, and then
/// with the stream as the last argument.
pub proof fn lemma_launch_only_when_accepted<H>(
    owned: Option<H>,
    judgement: Result<(), UrlError>,
    url: Seq<char>,
    volume: u8,
)
    ensures
        play_plan(owned, judgement, url, volume) is Launch <==> judgement is Ok,
        judgement is Ok ==> play_plan(owned, judgement, url, volume)->args.last() == url,
{
}

/// `play` keeps the world in order, whether or not the player could be
/// started: one process or none, and no socket file without a process.
pub proof fn lemma_play_keeps_order<H>(
    world: World<H>,
    judgement: Result<(), UrlError>,
    url: Seq<char>,
    volume: u8,
    spawned: Option<H>,
)
    requires
        world.well_kept(),
    ensures
        world.play(judgement, url, volume, spawned).well_kept(),
{
}

/// A URL whose scheme is neither `http` nor `https` starts no player: `play`
/// turns it away and leaves the slot as it was.
pub proof fn lemma_other_schemes_start_nothing<H>(
    owned: Option<H>,
    url: Seq<char>,
    scheme: Seq<char>,
    host: Option<Seq<char>>,
    volume: u8,
)
    requires
        parsed_parts(url) == Some((scheme, host)),
        !is_web_scheme(scheme),
    ensures
        play_plan(owned, verdict(parsed_parts(url)), url, volume) == PlayPlan::<H>::Rejected(
            UrlError::SchemeNotAllowed,
        ),
        slot_after_play(owned, verdict(parsed_parts(url))) == owned,
{
}

/// After a `play` that is followed at once by a second `play`, of a URL that
/// is accepted, the only process alive is the second one, and it plays the
/// second URL; none is alive where the second could not be started.
pub proof fn lemma_second_play_replaces_first<H>(
    world: World<H>,
    url_a: Seq<char>,
    volume_a: u8,
    spawned_a: Option<H>,
    url_b: Seq<char>,
    volume_b: u8,
    spawned_b: Option<H>,
)
    requires
        world.well_kept(),
        verdict(parsed_parts(url_b)) is Ok,
    ensures
        ({
            let after = world.play(verdict(parsed_parts(url_a)), url_a, volume_a, spawned_a).play(
                verdict(parsed_parts(url_b)),
                url_b,
                volume_b,
                spawned_b,
            );
            &&& after.well_kept()
            &&& after.owned == spawned_b
            &&& match spawned_b {
                Some(h) => after.live =~= map![h => url_b],
                None => after.live =~= Map::<H, Seq<char>>::empty(),
            }
        }),
{
}

/// `stop` leaves no process alive and no socket file, and a second `stop`
/// changes nothing: it finds the slot empty and releases nothing.
pub proof fn lemma_stop_is_idempotent<H>(world: World<H>)
    requires
        world.well_kept(),
    ensures
        world.stop().owned is None,
        world.stop().well_kept(),
        world.stop().stop() == world.stop(),
        world.owned is None ==> world.stop() == world,
{
    assert(world.stop().live =~= Map::<H, Seq<char>>::empty());
    assert(world.owned is None ==> world.live =~= Map::<H, Seq<char>>::empty());
}

/// Without an owned process a volume change sends nothing, whatever the
/// level and whether or not a socket file is there.
pub proof fn lemma_no_player_no_message<H>(level: u8, socket_present: bool)
    ensures
        volume_plan(None::<H>, level, socket_present) == VolumePlan::NoPlayer,
{
}

/// A volume message is sent exactly where a process is owned and its socket
/// is there, and it carries the level brought into range.
pub proof fn lemma_volume_message<H>(owned: Option<H>, level: u8, socket_present: bool)
    ensures
        volume_plan(owned, level, socket_present) is Send <==> owned is Some && socket_present,
        volume_plan(owned, level, socket_present) is Send ==> volume_plan(
            owned,
            level,
            socket_present,
        )->message == volume_command_spec(clamped(level)),
{
}

} // verus!
