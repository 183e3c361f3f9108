use yapping_client::sidebar::SidebarManager;

#[test]
fn new_sidebar_has_an_empty_search_field() {
    let sidebar = SidebarManager::new();
    assert_eq!(sidebar.friend_tag(), "");
}

#[test]
fn submitting_hands_out_the_tag_and_empties_the_field() {
    let mut sidebar = SidebarManager::new();
    sidebar.set_friend_tag("bob".to_string());
    assert_eq!(sidebar.friend_tag(), "bob");
    assert_eq!(sidebar.submit_search(), "bob");
    assert_eq!(sidebar.friend_tag(), "");
    assert_eq!(sidebar.submit_search(), "");
}
