use rpatchur::window::{
    after_look, after_sleep, without_flag, WindowSearch, WINDOW_ATTEMPTS, WINDOW_POLL_MS,
};

const MAXIMIZE_BOX: u32 = 0x0001_0000;

#[test]
fn search_is_bounded() {
    let mut looks = 0;
    let mut next = after_sleep(0);
    while let WindowSearch::Look(before) = next {
        looks += 1;
        next = match after_look(before, false) {
            WindowSearch::Sleep(millis, count) => {
                assert_eq!(millis, WINDOW_POLL_MS);
                assert_eq!(count, looks);
                after_sleep(count)
            }
            other => other,
        };
    }
    assert_eq!(next, WindowSearch::GiveUp);
    assert_eq!(looks, WINDOW_ATTEMPTS);
    assert_eq!(looks, 50);
}

#[test]
fn found_window_is_restyled() {
    assert_eq!(after_look(49, true), WindowSearch::Restyle);
}

#[test]
fn flag_is_cleared_and_nothing_else() {
    assert_eq!(without_flag(0x14CF_0000, MAXIMIZE_BOX), 0x14CE_0000);
    assert_eq!(without_flag(0x14CE_0000, MAXIMIZE_BOX), 0x14CE_0000);
    assert_eq!(without_flag(-1, MAXIMIZE_BOX), -0x1_0001);
}
