use close_my_lid::agents::{
    agent_row_detail, agents_caption, agents_subtitle, running_first, session_detail, sessions,
    working, working_summary,
};

#[test]
fn session_counts_read_as_english() {
    assert_eq!(session_detail(0), "idle");
    assert_eq!(session_detail(1), "1 session");
    assert_eq!(session_detail(4), "4 sessions");
}

#[test]
fn agent_rows_say_what_is_running() {
    assert_eq!(agent_row_detail(0), "Not running");
    assert_eq!(agent_row_detail(1), "1 session running");
    assert_eq!(agent_row_detail(12), "12 sessions running");
}

#[test]
fn captions_count_agents_and_sessions() {
    assert_eq!(agents_caption(&vec![0, 0, 0]), "Nothing running right now.");
    assert_eq!(agents_caption(&vec![0, 1, 0]), "1 session");
    assert_eq!(agents_caption(&vec![0, 3, 0]), "3 sessions in one agent");
    assert_eq!(agents_caption(&vec![2, 3, 0, 1]), "6 sessions across 3 agents");
    assert_eq!(working(&vec![2, 3, 0, 1]), 3);
    assert_eq!(sessions(&vec![2, 3, 0, 1]), 6);
}

#[test]
fn summaries_and_subtitles_follow_the_working_count() {
    assert_eq!(working_summary(&vec![0, 0]), "all idle");
    assert_eq!(working_summary(&vec![5, 0, 2]), "2 working");
    assert_eq!(
        agents_subtitle(&vec![0, 0]),
        "None of the agents below is running. The list refreshes every few seconds."
    );
    assert_eq!(
        agents_subtitle(&vec![0, 4]),
        "One agent is running. Close the lid and it keeps going."
    );
    assert_eq!(
        agents_subtitle(&vec![1, 4, 0, 9]),
        "3 agents are running. Close the lid and they keep going."
    );
}

#[test]
fn running_agents_are_listed_first_in_their_fixed_order() {
    assert_eq!(running_first(&vec![0, 2, 0, 1, 0, 0, 3]), vec![1, 3, 6, 0, 2, 4, 5]);
    assert_eq!(running_first(&vec![0, 0, 0]), vec![0, 1, 2]);
    assert_eq!(running_first(&vec![]), Vec::<usize>::new());
}
