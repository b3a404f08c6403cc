//! The program from one frame to the next.
use vstd::prelude::*;

use crate::images::{ImageKind, ImageLoader, Images, ImagesView};
use crate::input::{Events, Input, ListAction, Outcome};
use crate::roster::Roster;
use crate::state::{State, StateView};
use crate::status::{Status, StatusChecker};

verus! {

/// What the program keeps between two frames: the followed channels, the line in which a
/// channel is typed, and the pictures.
#[verifier::reject_recursive_types(I)]
pub struct App<I> {
    pub state: State,
    pub input: Input,
    pub images: Images<I>,
}

impl<I> App<I> {
    /// Every followed channel has a status and is marked as shown or not, so that the list
    /// can be drawn.
    pub open spec fn in_step(self) -> bool {
        self.state@.in_step()
    }

    /// Starts with the channels in `state`, and hands out the logins that have to be watched.
    pub fn new(state: State) -> (r: (Self, Vec<String>))
        ensures
            r.0.state == state,
            r.0.input.buffer@ == Seq::<char>::empty(),
            r.0.input.validity == crate::input::Validity::Empty,
            !r.0.input.pending,
            r.0.images@.statics == Map::<Seq<char>, I>::empty(),
            r.0.images@.previews == Map::<Seq<char>, crate::images::PreviewImage<I>>::empty(),
            r.1@.len() == state@.users.len(),
            forall|i: int| 0 <= i < r.1@.len() ==> (#[trigger] r.1@[i])@ == state@.users[i].login@,
    {
        let logins = state.logins();
        (App { state, input: Input::default(), images: Images::default() }, logins)
    }

    /// Takes in what came since the last frame: the loaded pictures in `arrivals` and the
    /// news about channels in `updates`.
    pub fn poll(
        &mut self,
        arrivals: Vec<(String, ImageKind, I, u128)>,
        updates: Vec<(String, Status)>,
    )
        ensures
            final(self).images@ == old(self).images@.with_all(arrivals@),
            final(self).state@ == (StateView {
                status: crate::status::updated(old(self).state@.status, updates@),
                ..old(self).state@
            }),
            final(self).input == old(self).input,
            old(self).in_step() ==> final(self).in_step(),
    {
        proof {
            if self.in_step() {
                crate::laws::news_keeps_in_step(self.state@, updates@);
            }
        }
        ImageLoader::poll(arrivals, &mut self.images);
        StatusChecker::poll(updates, &mut self.state.status);
    }

    /// Begins a frame with what happened to the line, and says what has to be done and what
    /// the list does.
    pub fn begin_frame(&mut self, events: Events) -> (r: (Outcome, ListAction))
        ensures
            crate::input::displayed(
                old(self).input,
                final(self).input,
                events,
                ListAction::Nothing,
                r.1,
                old(self).state@,
                final(self).state@,
                r.0,
            ),
            final(self).images == old(self).images,
            old(self).in_step() ==> final(self).in_step(),
    {
        let mut action = ListAction::default();
        let outcome = self.input.display(events, &mut action, &mut self.state);
        (outcome, action)
    }

    /// The order in which the channels are drawn.
    pub fn roster(&self) -> (r: Roster)
        requires
            self.in_step(),
        ensures
            r.online@ == crate::roster::places(
                self.state@,
                self.state@.users.len() as int,
                true,
            ),
            r.offline@ == crate::roster::places(
                self.state@,
                self.state@.users.len() as int,
                false,
            ),
    {
        Roster::new(&self.state)
    }

    /// Ends a frame in which the user at `to_remove`, if one, was to be taken out.
    pub fn end_frame(&mut self, to_remove: Option<usize>)
        ensures
            final(self).input == old(self).input,
            match to_remove {
                Some(index) if index < old(self).state@.users.len() => {
                    let user = old(self).state@.users[index as int];
                    &&& final(self).state@ == old(self).state@.without(index as int)
                    &&& final(self).images@ == (ImagesView {
                        statics: old(self).images@.statics.remove(user.profile_image_url@),
                        previews: old(self).images@.previews.remove(
                            crate::images::preview_address(user.login@),
                        ),
                    })
                    &&& old(self).in_step() ==> (final(self).in_step()
                        <==> old(self).state@.sole_login(index as int))
                },
                _ => *final(self) == *old(self),
            },
    {
        if let Some(index) = to_remove {
            self.state.remove(index, &mut self.images);
        }
    }
}

} // verus!
