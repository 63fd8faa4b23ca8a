use metasino::AccountId;
use metasino::Metasino;
use metasino::MinimumPlayerReached;
use metasino::TableError;
use metasino::MAX_PLAYERS;
use metasino::STATE;

#[test]
fn create_seats_initializer_alone() {
    let opener = AccountId(42);
    let table = Metasino::new(opener, 1).unwrap();
    assert_eq!(table.get_players_count(), 1);
    assert_eq!(table.get_accumulated_pot(), 1);
    assert_eq!(table.get_table_state(), STATE::STAGING);
    assert_eq!(table.get_players(), vec![opener]);

    let rich = Metasino::new(opener, u64::MAX).unwrap();
    assert_eq!(rich.get_accumulated_pot(), u64::MAX as u128);
    assert_eq!(rich.get_required_start_bet(), u64::MAX);
}

#[test]
fn pot_is_entry_bet_times_player_count() {
    let mut table = Metasino::new(AccountId(1), 100).unwrap();
    for n in 2..=u64::from(MAX_PLAYERS) {
        assert_eq!(table.register_player(AccountId(n), 100), Ok(()));
        assert_eq!(u64::from(table.get_players_count()), n);
        assert_eq!(table.get_accumulated_pot(), u128::from(100 * n));
    }
    assert_eq!(table.get_accumulated_pot(), 1000);
}

#[test]
fn eleventh_registration_fails_table_full() {
    let mut table = Metasino::new(AccountId(1), 100).unwrap();
    for n in 2..=u64::from(MAX_PLAYERS) {
        assert_eq!(table.register_player(AccountId(n), 100), Ok(()));
    }
    assert_eq!(table.get_players_count(), MAX_PLAYERS);
    assert_eq!(
        table.register_player(AccountId(11), 100),
        Err(TableError::TableFull)
    );
    assert_eq!(table.get_players_count(), MAX_PLAYERS);
    assert_eq!(table.get_accumulated_pot(), 1000);
}

#[test]
fn bet_mismatch_rejected_over_and_under() {
    let mut table = Metasino::new(AccountId(1), 100).unwrap();
    assert_eq!(
        table.register_player(AccountId(2), 99),
        Err(TableError::BetMismatch)
    );
    assert_eq!(
        table.register_player(AccountId(2), 101),
        Err(TableError::BetMismatch)
    );
    assert_eq!(table.get_players_count(), 1);
    assert_eq!(table.get_accumulated_pot(), 100);
}

#[test]
fn duplicate_rejection_leaves_table_unchanged() {
    let mut table = Metasino::new(AccountId(1), 100).unwrap();
    assert_eq!(table.register_player(AccountId(2), 100), Ok(()));
    assert_eq!(
        table.register_player(AccountId(2), 100),
        Err(TableError::DuplicateRegistration)
    );
    assert_eq!(table.get_players_count(), 2);
    assert_eq!(table.get_accumulated_pot(), 200);
    assert_eq!(table.get_players(), vec![AccountId(1), AccountId(2)]);
}

#[test]
fn players_returned_in_registration_order() {
    let opener = AccountId(7);
    let mut table = Metasino::new(opener, 5).unwrap();
    let joiners = [AccountId(3), AccountId(9), AccountId(4), AccountId(8)];
    for j in joiners {
        assert_eq!(table.register_player(j, 5), Ok(()));
    }
    let players = table.get_players();
    assert_eq!(players[0], opener);
    assert_eq!(
        players,
        vec![opener, AccountId(3), AccountId(9), AccountId(4), AccountId(8)]
    );
}

#[test]
fn playing_table_rejects_register_start_and_terminate() {
    let mut table = Metasino::new(AccountId(1), 100).unwrap();
    assert_eq!(table.register_player(AccountId(2), 100), Ok(()));
    assert_eq!(table.register_player(AccountId(3), 100), Ok(()));
    assert_eq!(table.start_game(), Ok(()));
    assert_eq!(
        table.register_player(AccountId(4), 100),
        Err(TableError::TableNotAcceptingPlayers)
    );
    assert_eq!(
        table.start_game(),
        Err(TableError::TableNotAcceptingPlayers)
    );
    assert_eq!(
        table.terminate(AccountId(99)),
        Err(TableError::TableNotTerminable)
    );
    assert_eq!(table.get_table_state(), STATE::PLAYING);
    assert_eq!(table.get_players_count(), 3);
}

#[test]
fn seated_player_cannot_terminate() {
    let alice = AccountId(1);
    let bob = AccountId(2);
    let mut table = Metasino::new(alice, 100).unwrap();
    assert_eq!(table.register_player(bob, 100), Ok(()));
    assert_eq!(table.terminate(alice), Err(TableError::NotAuthorized));
    assert_eq!(table.terminate(bob), Err(TableError::NotAuthorized));
    assert_eq!(table.get_players_count(), 2);
}

#[test]
fn stranger_terminates_and_empties_the_table() {
    let mut table = Metasino::new(AccountId(1), 100).unwrap();
    assert_eq!(table.register_player(AccountId(2), 100), Ok(()));
    assert_eq!(table.terminate(AccountId(99)), Ok(()));
    assert_eq!(table.get_players_count(), 0);
    assert_eq!(table.get_players(), vec![]);
    assert_eq!(table.get_accumulated_pot(), 200);
    assert_eq!(table.get_required_start_bet(), 100);
    assert_eq!(table.get_table_state(), STATE::STAGING);
}

#[test]
fn open_event_carries_initiator_and_bet() {
    let opener = AccountId(6);
    let table = Metasino::new(opener, 250).unwrap();
    let event = table.new_table_opened_event();
    assert_eq!(event.initiator, opener);
    assert_eq!(event.required_start_bet, 250);
    let reached = MinimumPlayerReached { account_id: opener };
    assert_eq!(reached.account_id, opener);
}

#[test]
fn end_to_end_table_lifecycle() {
    let a = AccountId(1);
    let b = AccountId(2);
    let c = AccountId(3);
    let d = AccountId(4);
    let mut table = Metasino::new(a, 100).unwrap();
    assert_eq!(table.register_player(b, 100), Ok(()));
    assert_eq!(table.register_player(c, 100), Ok(()));
    assert_eq!(table.get_players_count(), 3);
    assert_eq!(table.get_accumulated_pot(), 300);
    assert_eq!(table.get_table_state(), STATE::STAGING);
    assert_eq!(table.start_game(), Ok(()));
    assert_eq!(table.get_table_state(), STATE::PLAYING);
    assert_eq!(
        table.register_player(d, 100),
        Err(TableError::TableNotAcceptingPlayers)
    );
}
