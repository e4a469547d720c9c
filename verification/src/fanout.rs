//! Routing of the messages of several sources, each to its own handler.
//!
//! Sources deliver their messages independently of one another, in no
//! particular order among them. Each source has a handler of its own, so
//! that what one source is told never touches the state of another.

use vstd::prelude::*;
use crate::handler::{text_of, HandlerModel, MidiHandler};

verus! {

/// One source as a mathematical value.
pub struct SourceModel {
    /// The name under which the source's port was found.
    pub name: Seq<char>,
    /// The source's handler.
    pub handler: HandlerModel,
}

/// One delivery: a message and the source that it came from.
pub struct Delivery {
    /// Position of the source among the registered sources.
    pub source: nat,
    /// The bytes delivered.
    pub message: Seq<u8>,
}

/// The sources after one delivery: the handler of the delivery's source has
/// handled the message, and nothing else has changed. A delivery from a
/// source that is not registered changes nothing.
pub open spec fn deliver(sources: Seq<SourceModel>, d: Delivery) -> Seq<SourceModel> {
    if d.source < sources.len() {
        sources.update(
            d.source as int,
            SourceModel {
                name: sources[d.source as int].name,
                handler: sources[d.source as int].handler.step(d.message),
            },
        )
    } else {
        sources
    }
}

/// The sources after the deliveries `ds`, made in order.
pub open spec fn deliver_all(sources: Seq<SourceModel>, ds: Seq<Delivery>) -> Seq<SourceModel>
    decreases ds.len(),
{
    if ds.len() == 0 {
        sources
    } else {
        deliver(deliver_all(sources, ds.drop_last()), ds.last())
    }
}

/// The messages that `source` delivered among `ds`, in the order of their
/// delivery.
pub open spec fn messages_of(ds: Seq<Delivery>, source: nat) -> Seq<Seq<u8>>
    decreases ds.len(),
{
    if ds.len() == 0 {
        Seq::empty()
    } else if ds.last().source == source {
        messages_of(ds.drop_last(), source).push(ds.last().message)
    } else {
        messages_of(ds.drop_last(), source)
    }
}

/// What the delivery `d` returns to its source: the token of the message,
/// where the source is registered and the message is reported.
pub open spec fn delivered_token(sources: Seq<SourceModel>, d: Delivery) -> Option<Seq<char>> {
    if d.source < sources.len() {
        sources[d.source as int].handler.emitted(d.message)
    } else {
        None
    }
}

/// One input source: the name of its port and its handler.
#[derive(Debug)]
pub struct Source {
    name: String,
    handler: MidiHandler,
}

impl View for Source {
    type V = SourceModel;

    closed spec fn view(&self) -> SourceModel {
        SourceModel { name: self.name@, handler: self.handler@ }
    }
}

impl Source {
    /// A source that has delivered nothing yet.
    pub fn new(name: String) -> (source: Source)
        ensures
            source@ == (SourceModel { name: name@, handler: HandlerModel::fresh() }),
    {
        Source { name, handler: MidiHandler::new() }
    }

    /// The name of the source's port.
    pub fn name(&self) -> (name: &String)
        ensures
            name@ == self@.name,
    {
        &self.name
    }

    /// The source's handler.
    pub fn handler(&self) -> (handler: &MidiHandler)
        ensures
            handler@ == self@.handler,
    {
        &self.handler
    }
}

/// The registered sources, each with a handler of its own.
#[derive(Debug)]
pub struct Fanout {
    sources: Vec<Source>,
}

impl View for Fanout {
    type V = Seq<SourceModel>;

    closed spec fn view(&self) -> Seq<SourceModel> {
        self.sources@.map_values(|s: Source| s@)
    }
}

impl Fanout {
    /// No source at all.
    pub fn new() -> (fanout: Fanout)
        ensures
            fanout@ == Seq::<SourceModel>::empty(),
    {
        let fanout = Fanout { sources: Vec::new() };
        assert(fanout@ =~= Seq::<SourceModel>::empty());
        fanout
    }

    /// Number of registered sources.
    pub fn len(&self) -> (count: usize)
        ensures
            count == self@.len(),
    {
        self.sources.len()
    }

    /// Registers a source under `name` and returns its position. The sources
    /// registered before keep their positions and their state.
    pub fn add_source(&mut self, name: String) -> (position: usize)
        ensures
            position == old(self)@.len(),
            final(self)@ == old(self)@.push(
                SourceModel { name: name@, handler: HandlerModel::fresh() },
            ),
    {
        let position = self.sources.len();
        let source = Source::new(name);
        self.sources.push(source);
        assert(self@ =~= old(self)@.push(
            SourceModel { name: name@, handler: HandlerModel::fresh() },
        ));
        position
    }

    /// The source at `position`, if one is registered there.
    pub fn source(&self, position: usize) -> (source: Option<&Source>)
        ensures
            source is Some <==> position < self@.len(),
            source is Some ==> source.unwrap()@ == self@[position as int],
    {
        if position < self.sources.len() {
            Some(&self.sources[position])
        } else {
            None
        }
    }

    /// Hands `message` to the handler of the source at `position` and
    /// returns what that handler reports. No other source is touched; a
    /// position at which no source is registered is passed over.
    pub fn dispatch(&mut self, position: usize, message: &[u8]) -> (token: Option<String>)
        ensures
            final(self)@ == deliver(
                old(self)@,
                Delivery { source: position as nat, message: message@ },
            ),
            text_of(token) == delivered_token(
                old(self)@,
                Delivery { source: position as nat, message: message@ },
            ),
    {
        if position < self.sources.len() {
            let token = self.sources[position].handler.handle_message(message);
            assert(self@ =~= deliver(
                old(self)@,
                Delivery { source: position as nat, message: message@ },
            ));
            token
        } else {
            None
        }
    }
}

/// Sources do not interfere. After any deliveries, in any interleaving, the
/// handler of each source is what it would be had it handled that source's
/// own messages alone; names and positions stay.
pub proof fn lemma_sources_are_independent(sources: Seq<SourceModel>, ds: Seq<Delivery>, i: int)
    requires
        0 <= i < sources.len(),
    ensures
        deliver_all(sources, ds).len() == sources.len(),
        deliver_all(sources, ds)[i].name == sources[i].name,
        deliver_all(sources, ds)[i].handler == sources[i].handler.run(messages_of(ds, i as nat)),
    decreases ds.len(),
{
    if ds.len() > 0 {
        lemma_sources_are_independent(sources, ds.drop_last(), i);
        let ms = messages_of(ds, i as nat);
        if ds.last().source == i {
            assert(ms.drop_last() =~= messages_of(ds.drop_last(), i as nat));
            assert(ms.last() == ds.last().message);
        }
    }
}

/// The interleaving does not matter. Two runs of deliveries in which a
/// source delivers the same messages in the same order leave that source in
/// the same state, with the same history, however the deliveries of the
/// other sources fall between them.
pub proof fn lemma_interleaving_does_not_matter(
    sources: Seq<SourceModel>,
    a: Seq<Delivery>,
    b: Seq<Delivery>,
    i: int,
)
    requires
        0 <= i < sources.len(),
        messages_of(a, i as nat) == messages_of(b, i as nat),
    ensures
        deliver_all(sources, a)[i] == deliver_all(sources, b)[i],
{
    lemma_sources_are_independent(sources, a, i);
    lemma_sources_are_independent(sources, b, i);
}

} // verus!
