pub mod buy_ticket;
pub mod check_winner;
pub mod claim_prize;
pub mod create_lottery;
pub mod draw_winner;
pub mod withdraw_prize;
