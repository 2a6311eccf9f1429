use vstd::prelude::*;

use crate::projection::{describes, ChartDataset};
use crate::record::{extract, extraction, schema_matches, Payload};
use crate::series::{after_insert, first_color, ColorStrategy, SeriesStore, SeriesView};
use crate::timestamp::Timestamp;

verus! {

/// Points kept per device.
pub const CAPACITY: usize = 100;

/// Number of colors that series are drawn in.
pub const PALETTE_SIZE: usize = 7;

#[derive(Clone, Copy, Debug, PartialEq, Eq, Structural)]
pub enum State {
    Disconnected,
    Connecting,
    Connected,
}

/// An event for the session: from the user, or from the connection that the caller runs.
pub enum Msg<V> {
    /// The user asks to connect.
    Connect,
    /// The user asks to disconnect.
    Disconnect,
    /// The user edits the endpoint.
    UpdateUrl(String),
    /// The chart should be drawn again.
    UpdateGraph,
    /// A message arrived, already decoded, or delivery failed with the given text.
    Data(Result<Payload<V>, String>),
    /// The connection that was asked for is open.
    Opened,
    /// The connection that was asked for could not be opened.
    OpenFailed,
    /// The connection closed.
    Closed,
    /// Nothing to do.
    Ignore,
}

/// What the caller is to do after an event.
pub enum Command<V> {
    Nothing,
    /// Open a connection to this endpoint.
    Open(String),
    /// Close the connection.
    Close,
    /// Draw this dataset.
    Draw(ChartDataset<V>),
}

pub struct Update<V> {
    /// Whether the view is to be rendered again.
    pub render: bool,
    pub command: Command<V>,
}

/// Settings of a session: the endpoint that events are consumed from.
#[derive(Clone, Debug, PartialEq, Eq)]
pub struct Props {
    pub url: String,
}

/// One monitoring session: the endpoint, the connection state, the per-device series and
/// the number of messages of the accepted schema received since the last connect.
pub struct Chart<V> {
    pub props: Props,
    pub state: State,
    pub store: SeriesStore<V>,
    pub total_received: usize,
    pub socket_open: bool,
}

/// The series after a valid record arrives in a session.
pub open spec fn session_insert<V>(v: Seq<SeriesView<V>>, device: Seq<char>, at: Timestamp, value: V) -> Seq<
    SeriesView<V>,
> {
    after_insert(
        v,
        CAPACITY as nat,
        first_color(ColorStrategy::Deterministic, v.len(), 0, PALETTE_SIZE as nat),
        device,
        (at, value),
    )
}

impl<V: Copy> Chart<V> {
    pub open spec fn wf(&self) -> bool {
        &&& self.store.wf()
        &&& self.store.capacity_spec() == CAPACITY
        &&& self.store.palette_size_spec() == PALETTE_SIZE
        &&& self.store.strategy_spec() == ColorStrategy::Deterministic
    }

    pub fn create(props: Props) -> (r: Chart<V>)
        ensures
            r.wf(),
            r.props == props,
            r.state == State::Disconnected,
            r.store.view() == Seq::<SeriesView<V>>::empty(),
            r.total_received == 0,
            !r.socket_open,
    {
        Chart {
            props,
            state: State::Disconnected,
            store: SeriesStore::new(CAPACITY, PALETTE_SIZE, ColorStrategy::Deterministic),
            total_received: 0,
            socket_open: false,
        }
    }

    /// Starts a fresh session: forgets all series and the count, and asks for a connection
    /// unless one is open.
    fn restart(&mut self) -> (r: Command<V>)
        requires
            old(self).wf(),
        ensures
            final(self).wf(),
            final(self).props.url == old(self).props.url,
            final(self).socket_open == old(self).socket_open,
            final(self).state == State::Connecting,
            final(self).total_received == 0,
            final(self).store.view() == Seq::<SeriesView<V>>::empty(),
            match r {
                Command::Open(u) => !old(self).socket_open && u == old(self).props.url,
                Command::Nothing => old(self).socket_open,
                _ => false,
            },
    {
        self.total_received = 0;
        self.store.reset();
        self.state = State::Connecting;
        if self.socket_open {
            Command::Nothing
        } else {
            Command::Open(self.props.url.clone())
        }
    }

    /// Handles one event and says what the caller is to do.
    pub fn update(&mut self, msg: Msg<V>) -> (r: Update<V>)
        requires
            old(self).wf(),
        ensures
            final(self).wf(),
            match msg {
                Msg::Ignore => *final(self) == *old(self) && !r.render && r.command is Nothing,
                Msg::UpdateUrl(u) => final(self).props.url == u && final(self).state == old(self).state
                    && final(self).store == old(self).store && final(self).total_received
                    == old(self).total_received && final(self).socket_open == old(self).socket_open
                    && r.render && r.command is Nothing,
                Msg::Connect => final(self).props.url == old(self).props.url && final(self).state
                    == State::Connecting && final(self).store.view() == Seq::<SeriesView<V>>::empty()
                    && final(self).total_received == 0 && final(self).socket_open
                    == old(self).socket_open && r.render && (match r.command {
                    Command::Open(u) => !old(self).socket_open && u@ == old(self).props.url@,
                    Command::Nothing => old(self).socket_open,
                    _ => false,
                }),
                Msg::Closed => final(self).props.url == old(self).props.url && !final(self).socket_open && if old(
                    self,
                ).state == State::Disconnected {
                    final(self).state == State::Disconnected && final(self).store == old(self).store
                        && final(self).total_received == old(self).total_received
                        && r.command is Nothing
                } else {
                    final(self).state == State::Connecting && final(self).store.view() == Seq::<
                        SeriesView<V>,
                    >::empty() && final(self).total_received == 0 && (match r.command {
                        Command::Open(u) => u@ == old(self).props.url@,
                        _ => false,
                    })
                } && r.render,
                Msg::Opened => final(self).props.url == old(self).props.url && final(self).store == old(self).store
                    && final(self).total_received == old(self).total_received && r.render && if old(
                    self,
                ).state == State::Connecting {
                    final(self).state == State::Connected && final(self).socket_open
                        && r.command is Nothing
                } else {
                    final(self).state == old(self).state && !final(self).socket_open
                        && r.command is Close
                },
                Msg::OpenFailed => final(self).props.url == old(self).props.url && final(self).store == old(
                    self,
                ).store && final(self).total_received == old(self).total_received
                    && final(self).state == State::Disconnected && !final(self).socket_open
                    && r.render && r.command is Nothing,
                Msg::Disconnect => final(self).props.url == old(self).props.url && final(self).store == old(
                    self,
                ).store && final(self).total_received == old(self).total_received
                    && final(self).state == State::Disconnected && !final(self).socket_open
                    && r.render && r.command is Close,
                Msg::UpdateGraph => *final(self) == *old(self) && if old(self).store.view().len()
                    == 0 {
                    !r.render && r.command is Nothing
                } else {
                    r.render && match r.command {
                        Command::Draw(d) => describes(&d, old(self).store.view()),
                        _ => false,
                    }
                },
                Msg::Data(Err(_)) => *final(self) == *old(self) && r.render && r.command is Nothing,
                Msg::Data(Ok(p)) => final(self).props.url == old(self).props.url && final(self).state == old(
                    self,
                ).state && final(self).socket_open == old(self).socket_open
                    && final(self).total_received == (if schema_matches(&p)
                    && old(self).total_received < usize::MAX {
                    old(self).total_received + 1
                } else {
                    old(self).total_received as int
                }) && r.render && match extraction(&p) {
                    Ok((d, t, v)) => final(self).store.view() == session_insert(
                        old(self).store.view(),
                        d,
                        t,
                        v,
                    ) && match r.command {
                        Command::Draw(ds) => describes(&ds, final(self).store.view()),
                        _ => false,
                    },
                    Err(_) => final(self).store == old(self).store && r.command is Nothing,
                },
            },
    {
        match msg {
            Msg::Ignore => Update { render: false, command: Command::Nothing },
            Msg::UpdateUrl(u) => {
                self.props.url = u;
                Update { render: true, command: Command::Nothing }
            },
            Msg::Connect => {
                let command = self.restart();
                Update { render: true, command }
            },
            Msg::Closed => {
                self.socket_open = false;
                if self.state == State::Disconnected {
                    Update { render: true, command: Command::Nothing }
                } else {
                    let command = self.restart();
                    Update { render: true, command }
                }
            },
            Msg::Opened => {
                if self.state == State::Connecting {
                    self.socket_open = true;
                    self.state = State::Connected;
                    Update { render: true, command: Command::Nothing }
                } else {
                    self.socket_open = false;
                    Update { render: true, command: Command::Close }
                }
            },
            Msg::OpenFailed => {
                self.socket_open = false;
                self.state = State::Disconnected;
                Update { render: true, command: Command::Nothing }
            },
            Msg::Disconnect => {
                self.socket_open = false;
                self.state = State::Disconnected;
                Update { render: true, command: Command::Close }
            },
            Msg::UpdateGraph => {
                let d = self.store.project();
                if d.time_extent.is_some() {
                    Update { render: true, command: Command::Draw(d) }
                } else {
                    Update { render: false, command: Command::Nothing }
                }
            },
            Msg::Data(Err(_)) => Update { render: true, command: Command::Nothing },
            Msg::Data(Ok(p)) => {
                let expected = crate::record::SCHEMA.to_owned();
                let matches_schema = match &p.schema {
                    Some(s) => *s == expected,
                    None => false,
                };
                if matches_schema && self.total_received < usize::MAX {
                    self.total_received = self.total_received + 1;
                }
                match extract(&p) {
                    Ok(rec) => {
                        self.store.insert(&rec.device, rec.timestamp, rec.value, 0);
                        let d = self.store.project();
                        Update { render: true, command: Command::Draw(d) }
                    },
                    Err(_) => Update { render: true, command: Command::Nothing },
                }
            },
        }
    }
}

} // verus!
