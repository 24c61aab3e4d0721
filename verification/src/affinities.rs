//! State of the page that lists a user's affinities.

use crate::affinity::UserAffinity;
use vstd::prelude::*;

verus! {

/// What the page knows: the affinities, once they have been fetched.
#[derive(Debug)]
pub struct State {
    affinities: Option<Vec<UserAffinity>>,
}

/// What can happen to the page.
#[derive(Debug)]
pub enum Msg {
    /// The affinities arrived.
    AffinitiesFetchOk(Vec<UserAffinity>),
    /// The affinities could not be fetched.
    AffinitiesFetchErr,
}

impl View for State {
    type V = Option<Seq<UserAffinity>>;

    closed spec fn view(&self) -> Option<Seq<UserAffinity>> {
        match self.affinities {
            Some(affinities) => Some(affinities@),
            None => None,
        }
    }
}

/// The message that reports how fetching the affinities ended.
pub fn fetch_msg<E>(result: Result<Vec<UserAffinity>, E>) -> (msg: Msg)
    ensures
        match result {
            Ok(affinities) => msg == Msg::AffinitiesFetchOk(affinities),
            Err(_) => msg == Msg::AffinitiesFetchErr,
        },
{
    match result {
        Ok(affinities) => Msg::AffinitiesFetchOk(affinities),
        Err(_) => Msg::AffinitiesFetchErr,
    }
}

impl State {
    /// The state of a page that is still loading.
    pub fn new() -> (state: State)
        ensures
            state@ == None::<Seq<UserAffinity>>,
    {
        State { affinities: None }
    }

    /// Takes in `msg` and says whether the page has to be drawn again, which
    /// it always has. Affinities that arrived replace what was known; a
    /// failed fetch leaves the state as it was.
    pub fn update(&mut self, msg: Msg) -> (render: bool)
        ensures
            render,
            match msg {
                Msg::AffinitiesFetchOk(affinities) => final(self)@ == Some(affinities@),
                Msg::AffinitiesFetchErr => final(self)@ == old(self)@,
            },
    {
        match msg {
            Msg::AffinitiesFetchOk(affinities) => {
                self.affinities = Some(affinities);
            },
            Msg::AffinitiesFetchErr => {},
        }
        true
    }

    /// The affinities to show, or nothing while the page is loading.
    pub fn affinities(&self) -> (affinities: Option<&Vec<UserAffinity>>)
        ensures
            match affinities {
                Some(list) => self@ == Some(list@),
                None => self@ == None::<Seq<UserAffinity>>,
            },
    {
        self.affinities.as_ref()
    }
}

impl Default for State {
    fn default() -> (state: State)
        ensures
            state@ == None::<Seq<UserAffinity>>,
    {
        State::new()
    }
}

} // verus!
