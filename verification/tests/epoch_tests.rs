use bitcoin_node_query::epoch::{
    get_block_height_of_last_difficulty_adjustment, get_blocks_count_until_retarget,
    get_current_difficulty_epoch, get_estimated_seconds_until_retarget,
};
use bitcoin_node_query::get_time_since_last_block_in_seconds;

#[test]
fn epoch_of_height_4032() {
    assert_eq!(get_current_difficulty_epoch(4032), 3);
    assert_eq!(get_block_height_of_last_difficulty_adjustment(4032), 4032);
}

#[test]
fn epoch_of_height_zero() {
    assert_eq!(get_current_difficulty_epoch(0), 1);
    assert_eq!(get_block_height_of_last_difficulty_adjustment(0), 0);
}

#[test]
fn epoch_of_mid_period_heights() {
    assert_eq!(get_current_difficulty_epoch(1), 1);
    assert_eq!(get_current_difficulty_epoch(2015), 1);
    assert_eq!(get_current_difficulty_epoch(2016), 2);
    assert_eq!(get_block_height_of_last_difficulty_adjustment(2017), 2016);
    assert_eq!(get_block_height_of_last_difficulty_adjustment(4031), 2016);
}

#[test]
fn blocks_until_retarget_at_adjustment_is_full_period() {
    assert_eq!(get_blocks_count_until_retarget(4032), 2016);
    assert_eq!(get_blocks_count_until_retarget(0), 2016);
}

#[test]
fn blocks_until_retarget_mid_period() {
    assert_eq!(get_blocks_count_until_retarget(4033), 2015);
    assert_eq!(get_blocks_count_until_retarget(2015), 1);
}

#[test]
fn estimated_seconds_until_retarget_uses_constant_spacing() {
    assert_eq!(get_estimated_seconds_until_retarget(4033), 600 * 2015);
    assert_eq!(get_estimated_seconds_until_retarget(4032), 600 * 2016);
}

#[test]
fn time_since_last_block_is_a_plain_difference() {
    assert_eq!(get_time_since_last_block_in_seconds(1000, 400).0, 600);
    assert_eq!(get_time_since_last_block_in_seconds(400, 1000).0, -600);
}
