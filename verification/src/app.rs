//! The state of the dashboard and what the loop does with each event.
//!
//! The loop itself runs outside: it draws, waits for an event and asks
//! `App::on_event` what to do. For a poll it sends the query and hands the
//! reply to `App::update`.

use vstd::prelude::*;
use crate::event::{quit_key, Event, Key};
use crate::influx_db::{
    outcome_of, readings, ConfigError, InfluxDBConnection, QueryError, QueryReply, Reading,
    StorageUsage, first_missing,
};
use crate::layout::{arrange, face_of, Area, Gauge};

verus! {

/// Whether the loop goes on.
#[derive(Clone, Copy, Debug, PartialEq, Eq, Structural)]
pub enum Phase {
    Running,
    /// The loop has ended. Nothing leads back from here.
    Terminated,
}

/// What the loop is to do after an event.
#[derive(Clone, Copy, Debug, PartialEq, Eq, Structural)]
pub enum Action {
    /// Draw the gauges and wait for the next event.
    Redraw,
    /// Send the query and hand the reply to `App::update`; then draw the
    /// gauges and wait for the next event.
    Poll,
    /// Leave the loop, without drawing again.
    Exit,
}

/// The phase after an event: the quit key ends a running loop, and nothing
/// else changes the phase.
pub open spec fn phase_after(phase: Phase, event: Event) -> Phase {
    if phase == Phase::Running && event != Event::Input(quit_key()) {
        Phase::Running
    } else {
        Phase::Terminated
    }
}

/// What the loop is to do after an event that arrived in `phase`.
pub open spec fn action_for(phase: Phase, event: Event) -> Action {
    match phase_after(phase, event) {
        Phase::Terminated => Action::Exit,
        Phase::Running => match event {
            Event::Tick => Action::Poll,
            Event::Input(_) => Action::Redraw,
        },
    }
}

/// The readings on display after a poll: those that it gave if it gave any,
/// all of them and no others, and those from before if it failed, be it
/// for a fault, a malformed answer or an empty one.
pub open spec fn refreshed(shown: Seq<Reading>, outcome: Result<Seq<Reading>, QueryError>) -> Seq<
    Reading,
> {
    match outcome {
        Ok(fresh) => fresh,
        Err(_) => shown,
    }
}

/// The dashboard: the readings on display, the connection that they come
/// from, and whether the loop goes on.
pub struct App {
    storage: Vec<StorageUsage>,
    connection: InfluxDBConnection,
    phase: Phase,
}

impl App {
    /// The readings on display.
    pub closed spec fn shown(self) -> Seq<Reading> {
        readings(self.storage@)
    }

    /// Whether the loop goes on.
    pub closed spec fn phase(self) -> Phase {
        self.phase
    }

    /// The connection that the readings come from.
    pub closed spec fn link(self) -> InfluxDBConnection {
        self.connection
    }

    /// A dashboard that shows nothing yet, with a connection made from the
    /// four settings. It fails as the connection does.
    pub fn new(
        host: Option<String>,
        database: Option<String>,
        username: Option<String>,
        password: Option<String>,
    ) -> (r: Result<App, ConfigError>)
        ensures
            match r {
                Ok(app) => {
                    &&& first_missing(host, database, username, password) is None
                    &&& app.shown() == Seq::<Reading>::empty()
                    &&& app.phase() == Phase::Running
                    &&& app.link().url() == host.unwrap()@
                    &&& app.link().database() == database.unwrap()@
                    &&& app.link().login() == Some((username.unwrap()@, password.unwrap()@))
                },
                Err(e) => first_missing(host, database, username, password) == Some(e->Missing_0),
            },
    {
        match InfluxDBConnection::new(host, database, username, password) {
            Ok(connection) => {
                let app = App { storage: Vec::new(), connection, phase: Phase::Running };
                assert(app.shown() =~= Seq::<Reading>::empty());
                Ok(app)
            },
            Err(e) => Err(e),
        }
    }

    /// Takes in the reply to a poll. Readings replace those on display as a
    /// whole; a failed poll leaves the display as it is and is handed back
    /// to be reported. An answer that holds no reading is a failed poll, so
    /// a display that shows readings is never blanked.
    pub fn update(&mut self, reply: QueryReply) -> (failure: Option<QueryError>)
        ensures
            final(self).shown() == refreshed(old(self).shown(), outcome_of(reply)),
            final(self).phase() == old(self).phase(),
            final(self).link() == old(self).link(),
            old(self).shown().len() >= 1 ==> final(self).shown().len() >= 1,
            failure == match outcome_of(reply) {
                Ok(_) => None::<QueryError>,
                Err(e) => Some(e),
            },
    {
        let response = self.connection.get_storage_load(reply);
        match response {
            Ok(data) => {
                self.storage = data;
                None
            },
            Err(e) => Some(e),
        }
    }

    /// Decides what an event leads to. The quit key ends the loop; a tick
    /// asks for a poll; any other key is ignored. No event touches the
    /// readings, and once the loop has ended every event ends it again.
    pub fn on_event(&mut self, event: Event) -> (action: Action)
        ensures
            action == action_for(old(self).phase(), event),
            final(self).phase() == phase_after(old(self).phase(), event),
            final(self).shown() == old(self).shown(),
            final(self).link() == old(self).link(),
    {
        match self.phase {
            Phase::Terminated => Action::Exit,
            Phase::Running => match event {
                Event::Tick => Action::Poll,
                Event::Input(key) => {
                    if key.is_quit() {
                        self.phase = Phase::Terminated;
                        Action::Exit
                    } else {
                        Action::Redraw
                    }
                },
            },
        }
    }

    /// Whether the loop goes on.
    pub fn is_running(&self) -> (yes: bool)
        ensures
            yes == (self.phase() == Phase::Running),
    {
        match self.phase {
            Phase::Running => true,
            Phase::Terminated => false,
        }
    }

    /// The connection that the readings come from.
    pub fn connection(&self) -> (connection: &InfluxDBConnection)
        ensures
            *connection == self.link(),
    {
        &self.connection
    }

    /// The readings on display.
    pub fn storage(&self) -> (rows: &Vec<StorageUsage>)
        ensures
            readings(rows@) == self.shown(),
    {
        &self.storage
    }

    /// The gauges to draw in `area`: one for each reading on display, in
    /// their order, and none when there is no reading.
    pub fn gauges(&self, area: Area) -> (list: Vec<Gauge>)
        requires
            area.holds(self.shown().len()),
        ensures
            list@.len() == self.shown().len(),
            forall|i: int|
                0 <= i < list@.len() ==> (#[trigger] list@[i]).face() == face_of(self.shown()[i]),
    {
        arrange(&self.storage, area)
    }
}

/// Something that happens to the loop: a key is pressed, or the timer
/// ticks and the poll that follows gives readings or fails.
pub enum Occurrence {
    Pressed(Key),
    Ticked(Result<Seq<Reading>, QueryError>),
}

/// What the loop is in: its phase and the readings on display.
pub struct Stage {
    pub phase: Phase,
    pub shown: Seq<Reading>,
}

/// The event that the loop sees of an occurrence.
pub open spec fn event_of(occurrence: Occurrence) -> Event {
    match occurrence {
        Occurrence::Pressed(key) => Event::Input(key),
        Occurrence::Ticked(_) => Event::Tick,
    }
}

/// The loop after one occurrence: its event decides the phase and the
/// action, and where the action is a poll, the poll's outcome refreshes the
/// display.
pub open spec fn after_one(stage: Stage, occurrence: Occurrence) -> Stage {
    let event = event_of(occurrence);
    Stage {
        phase: phase_after(stage.phase, event),
        shown: match occurrence {
            Occurrence::Ticked(outcome) => if action_for(stage.phase, event) == Action::Poll {
                refreshed(stage.shown, outcome)
            } else {
                stage.shown
            },
            Occurrence::Pressed(_) => stage.shown,
        },
    }
}

/// The loop after a history of occurrences, in their order.
pub open spec fn after_all(stage: Stage, history: Seq<Occurrence>) -> Stage
    decreases history.len(),
{
    if history.len() == 0 {
        stage
    } else {
        after_one(after_all(stage, history.drop_last()), history.last())
    }
}

/// The readings of the latest poll in a history that gave any, or `shown`
/// if none did.
pub open spec fn last_good(shown: Seq<Reading>, history: Seq<Occurrence>) -> Seq<Reading>
    decreases history.len(),
{
    if history.len() == 0 {
        shown
    } else {
        match history.last() {
            Occurrence::Ticked(Ok(fresh)) => fresh,
            _ => last_good(shown, history.drop_last()),
        }
    }
}

/// Whether the quit key is pressed nowhere in a history.
pub open spec fn quit_free(history: Seq<Occurrence>) -> bool {
    forall|i: int| 0 <= i < history.len() ==> history[i] != Occurrence::Pressed(quit_key())
}

/// A poll that gives readings puts exactly them on display, a poll that
/// fails changes nothing, and neither ends the loop.
pub proof fn lemma_tick_refreshes(stage: Stage, outcome: Result<Seq<Reading>, QueryError>)
    requires
        stage.phase == Phase::Running,
    ensures
        after_one(stage, Occurrence::Ticked(outcome)).phase == Phase::Running,
        outcome is Ok ==> after_one(stage, Occurrence::Ticked(outcome)).shown == outcome->Ok_0,
        outcome is Err ==> after_one(stage, Occurrence::Ticked(outcome)).shown == stage.shown,
{
}

/// No poll blanks the display: an answer without a reading is a failure,
/// so what is shown after a poll is shown before it or holds a reading.
pub proof fn lemma_poll_never_blanks(shown: Seq<Reading>, reply: QueryReply)
    ensures
        refreshed(shown, outcome_of(reply)) == shown || refreshed(shown, outcome_of(reply)).len()
            >= 1,
        outcome_of(reply) is Err ==> refreshed(shown, outcome_of(reply)) == shown,
{
}

/// No key press alters the readings on display.
pub proof fn lemma_keys_leave_display(stage: Stage, key: Key)
    ensures
        after_one(stage, Occurrence::Pressed(key)).shown == stage.shown,
        key != quit_key() ==> after_one(stage, Occurrence::Pressed(key)) == stage,
{
}

/// The quit key ends the loop from wherever it stands, and the action that
/// goes with it is to leave without drawing again.
pub proof fn lemma_quit_ends(stage: Stage)
    ensures
        after_one(stage, Occurrence::Pressed(quit_key())).phase == Phase::Terminated,
        action_for(stage.phase, Event::Input(quit_key())) == Action::Exit,
{
}

/// Nothing leads back from the end: whatever happens after the loop has
/// ended, it stays ended, shows what it showed, and every event is answered
/// by leaving.
pub proof fn lemma_terminated_is_final(stage: Stage, history: Seq<Occurrence>)
    requires
        stage.phase == Phase::Terminated,
    ensures
        after_all(stage, history) == stage,
        forall|event: Event| action_for(stage.phase, event) == Action::Exit,
    decreases history.len(),
{
    if history.len() > 0 {
        lemma_terminated_is_final(stage, history.drop_last());
    }
}

/// As long as the quit key is not pressed the loop goes on, and what it
/// shows after any history of key presses and polls is what the latest
/// poll that gave readings gave; key presses and failed polls in between
/// do not matter.
pub proof fn lemma_display_follows_polls(stage: Stage, history: Seq<Occurrence>)
    requires
        stage.phase == Phase::Running,
        quit_free(history),
    ensures
        after_all(stage, history).phase == Phase::Running,
        after_all(stage, history).shown == last_good(stage.shown, history),
    decreases history.len(),
{
    if history.len() > 0 {
        let earlier = history.drop_last();
        assert(quit_free(earlier)) by {
            assert forall|i: int| 0 <= i < earlier.len() implies earlier[i] != Occurrence::Pressed(
                quit_key(),
            ) by {
                assert(earlier[i] == history[i]);
            }
        }
        lemma_display_follows_polls(stage, earlier);
        assert(history.last() == history[history.len() - 1]);
    }
}

/// The display is always the whole result of one poll: after any history
/// it shows what it showed at the start or what one poll of the history
/// gave, never a mix.
pub proof fn lemma_display_is_whole(stage: Stage, history: Seq<Occurrence>)
    ensures
        after_all(stage, history).shown == stage.shown || exists|i: int|
            0 <= i < history.len() && history[i] == Occurrence::Ticked(
                Ok::<Seq<Reading>, QueryError>(after_all(stage, history).shown),
            ),
    decreases history.len(),
{
    if history.len() > 0 {
        let earlier = history.drop_last();
        let before = after_all(stage, earlier);
        let now = after_all(stage, history);
        lemma_display_is_whole(stage, earlier);
        if now.shown == before.shown {
            if before.shown != stage.shown {
                let i = choose|i: int|
                    0 <= i < earlier.len() && earlier[i] == Occurrence::Ticked(
                        Ok::<Seq<Reading>, QueryError>(before.shown),
                    );
                assert(history[i] == earlier[i]);
            }
        } else {
            assert(history[history.len() - 1] == Occurrence::Ticked(
                Ok::<Seq<Reading>, QueryError>(now.shown),
            ));
        }
    }
}

} // verus!
