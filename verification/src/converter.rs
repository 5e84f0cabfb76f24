//! The weight container converter: a model directory that holds only the
//! pickled container gets the mappable one written from it, and then loses
//! the pickled one. The files are touched by the caller; what to do next is
//! decided here, one step at a time.

use crate::error::{is_load_failure, labelled, Error};
use vstd::prelude::*;
use vstd::string::*;

verus! {

/// Where a conversion stands: what the caller has been asked to do and has
/// not yet answered.
pub enum Stage {
    /// Asked whether the mappable container exists.
    CanonicalProbe,
    /// Asked whether the pickled container exists.
    LegacyProbe,
    /// Asked to read every tensor of the pickled container into memory.
    Read,
    /// Asked to write the tensors out as the mappable container.
    Write,
    /// Asked to delete what a failed write left behind; holds why it failed.
    Discard(String),
    /// Asked to delete the pickled container.
    Remove,
    /// Nothing more to do.
    Finished,
}

/// What the caller answers.
pub enum Event {
    /// The answer to a probe.
    Found(bool),
    /// The step was carried out.
    Done,
    /// The step failed, for this reason.
    Failed(String),
}

/// What the caller is asked to do next.
pub enum Action {
    /// Tell whether the mappable container exists.
    ProbeCanonical,
    /// Tell whether the pickled container exists.
    ProbeLegacy,
    /// Read every tensor of the pickled container into memory.
    ReadLegacy,
    /// Write the tensors read, under their names, as the mappable container.
    WriteCanonical,
    /// Delete whatever stands in the place of the mappable container.
    DiscardCanonical,
    /// Delete the pickled container. A failure is worth a warning, no more.
    RemoveLegacy,
    /// Stop, with this result.
    Finish(Result<(), Error>),
}

/// A stage as plain mathematical values.
pub enum StageView {
    CanonicalProbe,
    LegacyProbe,
    Read,
    Write,
    Discard(Seq<char>),
    Remove,
    Finished,
}

/// An answer as plain mathematical values.
pub enum EventView {
    Found(bool),
    Done,
    Failed(Seq<char>),
}

/// A request as plain mathematical values.
pub enum ActionView {
    ProbeCanonical,
    ProbeLegacy,
    ReadLegacy,
    WriteCanonical,
    DiscardCanonical,
    RemoveLegacy,
    /// Stop with success.
    Succeed,
    /// Stop with `ModelLoadFailed` and this detail.
    Fail(Seq<char>),
}

impl View for Stage {
    type V = StageView;

    open spec fn view(&self) -> StageView {
        match self {
            Stage::CanonicalProbe => StageView::CanonicalProbe,
            Stage::LegacyProbe => StageView::LegacyProbe,
            Stage::Read => StageView::Read,
            Stage::Write => StageView::Write,
            Stage::Discard(why) => StageView::Discard(why@),
            Stage::Remove => StageView::Remove,
            Stage::Finished => StageView::Finished,
        }
    }
}

impl View for Event {
    type V = EventView;

    open spec fn view(&self) -> EventView {
        match self {
            Event::Found(b) => EventView::Found(*b),
            Event::Done => EventView::Done,
            Event::Failed(why) => EventView::Failed(why@),
        }
    }
}

/// `action` asks for what `view` describes.
pub open spec fn action_is(action: Action, view: ActionView) -> bool {
    match view {
        ActionView::ProbeCanonical => action is ProbeCanonical,
        ActionView::ProbeLegacy => action is ProbeLegacy,
        ActionView::ReadLegacy => action is ReadLegacy,
        ActionView::WriteCanonical => action is WriteCanonical,
        ActionView::DiscardCanonical => action is DiscardCanonical,
        ActionView::RemoveLegacy => action is RemoveLegacy,
        ActionView::Succeed => action matches Action::Finish(Ok(_)),
        ActionView::Fail(detail) => action matches Action::Finish(Err(e)) && is_load_failure(
            e,
            detail,
        ),
    }
}

/// What introduces the reason when the pickled container cannot be read.
pub open spec fn read_failure_heading() -> Seq<char> {
    "Failed to read PyTorch file: "@
}

/// What introduces the reason when the mappable container cannot be written.
pub open spec fn write_failure_heading() -> Seq<char> {
    "Failed to save SafeTensors: "@
}

/// What is reported of an answer that fits no question.
pub open spec fn out_of_step_text() -> Seq<char> {
    "Conversion was answered out of step"@
}

/// The stage a conversion starts in, and the first request.
pub open spec fn first_move() -> (StageView, ActionView) {
    (StageView::CanonicalProbe, ActionView::ProbeCanonical)
}

/// The rule of the converter: the stage and the request that follow an
/// answer.
///
/// A directory that has the mappable container is left alone, and so is one
/// that has neither container. Otherwise the pickled container is read and
/// written out. A failed read stops the conversion before anything is
/// written. A failed write has its remains deleted before the conversion
/// stops, so that no partial container stays. Only after a good write is the
/// pickled container deleted, and whether that works does not matter to the
/// result.
pub open spec fn next_move(stage: StageView, event: EventView) -> (StageView, ActionView) {
    match (stage, event) {
        (StageView::CanonicalProbe, EventView::Found(true)) => (
            StageView::Finished,
            ActionView::Succeed,
        ),
        (StageView::CanonicalProbe, EventView::Found(false)) => (
            StageView::LegacyProbe,
            ActionView::ProbeLegacy,
        ),
        (StageView::LegacyProbe, EventView::Found(false)) => (
            StageView::Finished,
            ActionView::Succeed,
        ),
        (StageView::LegacyProbe, EventView::Found(true)) => (
            StageView::Read,
            ActionView::ReadLegacy,
        ),
        (StageView::Read, EventView::Done) => (StageView::Write, ActionView::WriteCanonical),
        (StageView::Read, EventView::Failed(why)) => (
            StageView::Finished,
            ActionView::Fail(read_failure_heading() + why),
        ),
        (StageView::Write, EventView::Done) => (StageView::Remove, ActionView::RemoveLegacy),
        (StageView::Write, EventView::Failed(why)) => (
            StageView::Discard(why),
            ActionView::DiscardCanonical,
        ),
        (StageView::Discard(why), EventView::Done) => (
            StageView::Finished,
            ActionView::Fail(write_failure_heading() + why),
        ),
        (StageView::Discard(why), EventView::Failed(_)) => (
            StageView::Finished,
            ActionView::Fail(write_failure_heading() + why),
        ),
        (StageView::Remove, EventView::Done) => (StageView::Finished, ActionView::Succeed),
        (StageView::Remove, EventView::Failed(_)) => (StageView::Finished, ActionView::Succeed),
        _ => (StageView::Finished, ActionView::Fail(out_of_step_text())),
    }
}

fn out_of_step() -> (moved: (Stage, Action))
    ensures
        moved.0@ == StageView::Finished,
        action_is(moved.1, ActionView::Fail(out_of_step_text())),
{
    (
        Stage::Finished,
        Action::Finish(
            Err(Error::ModelLoadFailed(String::from_str("Conversion was answered out of step"))),
        ),
    )
}

/// Starts a conversion: asks whether the mappable container exists.
pub fn begin() -> (moved: (Stage, Action))
    ensures
        moved.0@ == first_move().0,
        action_is(moved.1, first_move().1),
{
    (Stage::CanonicalProbe, Action::ProbeCanonical)
}

/// Takes the answer to the last request and decides what comes next, as
/// [`next_move`] says.
pub fn advance(stage: Stage, event: Event) -> (moved: (Stage, Action))
    ensures
        moved.0@ == next_move(stage@, event@).0,
        action_is(moved.1, next_move(stage@, event@).1),
{
    match stage {
        Stage::CanonicalProbe => match event {
            Event::Found(true) => (Stage::Finished, Action::Finish(Ok(()))),
            Event::Found(false) => (Stage::LegacyProbe, Action::ProbeLegacy),
            _ => out_of_step(),
        },
        Stage::LegacyProbe => match event {
            Event::Found(false) => (Stage::Finished, Action::Finish(Ok(()))),
            Event::Found(true) => (Stage::Read, Action::ReadLegacy),
            _ => out_of_step(),
        },
        Stage::Read => match event {
            Event::Done => (Stage::Write, Action::WriteCanonical),
            Event::Failed(why) => (
                Stage::Finished,
                Action::Finish(
                    Err(
                        Error::ModelLoadFailed(
                            labelled("Failed to read PyTorch file: ", why.as_str()),
                        ),
                    ),
                ),
            ),
            _ => out_of_step(),
        },
        Stage::Write => match event {
            Event::Done => (Stage::Remove, Action::RemoveLegacy),
            Event::Failed(why) => (Stage::Discard(why), Action::DiscardCanonical),
            _ => out_of_step(),
        },
        Stage::Discard(why) => match event {
            Event::Found(_) => out_of_step(),
            _ => (
                Stage::Finished,
                Action::Finish(
                    Err(
                        Error::ModelLoadFailed(
                            labelled("Failed to save SafeTensors: ", why.as_str()),
                        ),
                    ),
                ),
            ),
        },
        Stage::Remove => match event {
            Event::Found(_) => out_of_step(),
            _ => (Stage::Finished, Action::Finish(Ok(()))),
        },
        Stage::Finished => out_of_step(),
    }
}

/// A model directory as the converter sees it: which of the two containers
/// it holds.
pub struct Directory {
    pub canonical: bool,
    pub legacy: bool,
}

/// How the world answers: whether reading, writing and deleting work.
pub struct Weather {
    pub read_works: bool,
    pub write_works: bool,
    pub remove_works: bool,
}

/// The answer of a faithful caller to a request, and the directory after it
/// has carried the request out. A write that fails may leave a partial file
/// behind; deleting its remains always clears the place.
pub open spec fn carry_out(action: ActionView, dir: Directory, weather: Weather) -> (
    EventView,
    Directory,
) {
    match action {
        ActionView::ProbeCanonical => (EventView::Found(dir.canonical), dir),
        ActionView::ProbeLegacy => (EventView::Found(dir.legacy), dir),
        ActionView::ReadLegacy => if weather.read_works {
            (EventView::Done, dir)
        } else {
            (EventView::Failed(Seq::empty()), dir)
        },
        ActionView::WriteCanonical => if weather.write_works {
            (EventView::Done, Directory { canonical: true, legacy: dir.legacy })
        } else {
            (EventView::Failed(Seq::empty()), Directory { canonical: true, legacy: dir.legacy })
        },
        ActionView::DiscardCanonical => (
            EventView::Done,
            Directory { canonical: false, legacy: dir.legacy },
        ),
        ActionView::RemoveLegacy => if weather.remove_works {
            (EventView::Done, Directory { canonical: dir.canonical, legacy: false })
        } else {
            (EventView::Failed(Seq::empty()), dir)
        },
        _ => (EventView::Done, dir),
    }
}

/// The request that ends a conversion run by a faithful caller, and the
/// directory it leaves, after at most `fuel` answers.
pub open spec fn run(
    stage: StageView,
    action: ActionView,
    dir: Directory,
    weather: Weather,
    fuel: nat,
) -> (ActionView, Directory)
    decreases fuel,
{
    if fuel == 0 || action is Succeed || action is Fail {
        (action, dir)
    } else {
        let (event, after) = carry_out(action, dir, weather);
        let (stage2, action2) = next_move(stage, event);
        run(stage2, action2, after, weather, (fuel - 1) as nat)
    }
}

/// A whole conversion of a directory, from the first request to the last.
pub open spec fn convert(dir: Directory, weather: Weather) -> (ActionView, Directory) {
    run(first_move().0, first_move().1, dir, weather, 6)
}

/// What a conversion does to a directory, whatever the weather.
///
/// It always comes to an end. A directory that has the mappable container, or
/// neither container, is left as it is, with success: converting twice does
/// no more than converting once. Where only the pickled container is there,
/// the conversion succeeds exactly when reading and writing work; it then
/// leaves the mappable container, and the pickled one only if it could not be
/// deleted. Where it fails, no mappable container is left in place and the
/// pickled one stays.
pub proof fn lemma_conversion(dir: Directory, weather: Weather)
    ensures
        convert(dir, weather).0 is Succeed || convert(dir, weather).0 is Fail,
        dir.canonical || !dir.legacy ==> convert(dir, weather).0 is Succeed && convert(
            dir,
            weather,
        ).1 == dir,
        !dir.canonical && dir.legacy ==> {
            let (last, after) = convert(dir, weather);
            if weather.read_works && weather.write_works {
                last is Succeed && after.canonical && after.legacy == !weather.remove_works
            } else {
                last is Fail && !after.canonical && after.legacy
            }
        },
        convert(convert(dir, weather).1, weather).0 is Succeed ==> convert(
            convert(dir, weather).1,
            weather,
        ).1 == convert(dir, weather).1,
{
    reveal_with_fuel(run, 7);
    let after = convert(dir, weather).1;
    assert(after.canonical || !after.legacy || (!after.canonical && after.legacy));
}

} // verus!
