//! State of the sidebar: the tag typed into the friend search.

use vstd::prelude::*;

verus! {

/// The sidebar's friend search.
#[derive(Debug)]
pub struct SidebarManager {
    friend_tag: String,
}

impl View for SidebarManager {
    type V = Seq<char>;

    /// The tag in the search field.
    closed spec fn view(&self) -> Seq<char> {
        self.friend_tag@
    }
}

impl SidebarManager {
    /// A sidebar with an empty search field.
    pub fn new() -> (sidebar: SidebarManager)
        ensures
            sidebar@ == Seq::<char>::empty(),
    {
        SidebarManager { friend_tag: String::new() }
    }

    /// The tag in the search field.
    pub fn friend_tag(&self) -> (tag: &String)
        ensures
            tag@ == self@,
    {
        &self.friend_tag
    }

    /// Puts what the user typed into the search field.
    pub fn set_friend_tag(&mut self, tag: String)
        ensures
            final(self)@ == tag@,
    {
        self.friend_tag = tag;
    }

    /// The user has asked for the search: hands out the tag to search for
    /// and empties the field.
    pub fn submit_search(&mut self) -> (tag: String)
        ensures
            tag@ == old(self)@,
            final(self)@ == Seq::<char>::empty(),
    {
        let mut tag = String::new();
        std::mem::swap(&mut self.friend_tag, &mut tag);
        tag
    }
}

} // verus!
