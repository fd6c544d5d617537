use players_api::player::{Player, PlayerRequest};
use players_api::service::{index, rocket, LoadError};
use players_api::store::{next_id, Store, StoreError};

fn request(squad_number: u32, last_name: &str, team: &str) -> PlayerRequest {
    PlayerRequest {
        first_name: "Emiliano".to_string(),
        middle_name: "".to_string(),
        last_name: last_name.to_string(),
        date_of_birth: "1992-09-02".to_string(),
        squad_number,
        position: "Goalkeeper".to_string(),
        abbr_position: "GK".to_string(),
        team: team.to_string(),
        league: "Premier League".to_string(),
        starting11: true,
    }
}

fn record(id: u64, squad_number: u32) -> Player {
    Player::from_request(id, request(squad_number, "Martinez", "Aston Villa FC"))
}

#[test]
fn create_on_empty_store_gets_id_one_then_duplicate_squad_conflicts() {
    let mut st = Store::new();
    let p = st.create(request(7, "Martinez", "Aston Villa FC")).unwrap();
    assert_eq!(p.id, 1);
    assert_eq!(p.squad_number, 7);
    let e = st.create(request(7, "Other", "Other FC"));
    assert_eq!(e.err(), Some(StoreError::Conflict));
    assert_eq!(StoreError::Conflict.status(), 409);
    assert_eq!(st.list_all().len(), 1);
    assert_eq!(st.list_all()[0].last_name, "Martinez");
}

#[test]
fn id_policy_is_max_plus_one_after_delete() {
    let mut st = Store::new();
    assert_eq!(st.create(request(1, "A", "T")).unwrap().id, 1);
    assert_eq!(st.create(request(2, "B", "T")).unwrap().id, 2);
    assert_eq!(st.create(request(3, "C", "T")).unwrap().id, 3);
    assert_eq!(st.delete(2), Ok(()));
    assert_eq!(st.create(request(4, "D", "T")).unwrap().id, 4);
    let ids: Vec<u64> = st.list_all().iter().map(|p| p.id).collect();
    assert_eq!(ids, vec![1, 3, 4]);
}

#[test]
fn deleting_the_maximum_lets_its_id_come_back() {
    let mut st = rocket(vec![record(1, 10), record(2, 11)]).unwrap();
    assert_eq!(st.delete(2), Ok(()));
    let p = st.create(request(12, "New", "T")).unwrap();
    assert_eq!(p.id, 2);
}

#[test]
fn next_id_is_one_past_the_largest() {
    assert_eq!(next_id(&vec![]), Some(1));
    assert_eq!(next_id(&vec![record(5, 1), record(3, 2)]), Some(6));
    assert_eq!(next_id(&vec![record(u64::MAX, 1)]), None);
    let st = rocket(vec![record(4, 1), record(9, 2), record(2, 3)]).unwrap();
    assert_eq!(st.next_id(), Some(10));
}

#[test]
fn get_missing_id_is_not_found() {
    let st = rocket(vec![record(1, 10), record(2, 11)]).unwrap();
    let e = st.get_by_id(999);
    assert_eq!(e.err(), Some(StoreError::NotFound));
    assert_eq!(StoreError::NotFound.status(), 404);
}

#[test]
fn get_by_id_and_squad_number_find_the_record() {
    let st = rocket(vec![record(1, 10), record(2, 23)]).unwrap();
    assert_eq!(st.get_by_id(2).unwrap().squad_number, 23);
    assert_eq!(st.get_by_squad_number(10).unwrap().id, 1);
    assert_eq!(st.get_by_squad_number(99).err(), Some(StoreError::NotFound));
}

#[test]
fn update_changing_only_team_keeps_other_fields() {
    let mut st = rocket(vec![record(1, 10), record(2, 23)]).unwrap();
    let before = st.get_by_id(2).unwrap();
    let p = st.update(2, request(23, "Martinez", "Argentina")).unwrap();
    assert_eq!(p.id, 2);
    assert_eq!(p.team, "Argentina");
    let after = st.get_by_id(2).unwrap();
    assert_eq!(after.team, "Argentina");
    assert_eq!(after.id, before.id);
    assert_eq!(after.first_name, before.first_name);
    assert_eq!(after.middle_name, before.middle_name);
    assert_eq!(after.last_name, before.last_name);
    assert_eq!(after.date_of_birth, before.date_of_birth);
    assert_eq!(after.squad_number, before.squad_number);
    assert_eq!(after.position, before.position);
    assert_eq!(after.abbr_position, before.abbr_position);
    assert_eq!(after.league, before.league);
    assert_eq!(after.starting11, before.starting11);
    let ids: Vec<u64> = st.list_all().iter().map(|p| p.id).collect();
    assert_eq!(ids, vec![1, 2]);
}

#[test]
fn update_with_own_squad_number_succeeds() {
    let mut st = rocket(vec![record(1, 10), record(2, 23)]).unwrap();
    assert!(st.update(1, request(10, "Same", "T")).is_ok());
    assert_eq!(st.get_by_id(1).unwrap().last_name, "Same");
}

#[test]
fn update_errors_leave_store_unchanged() {
    let mut st = rocket(vec![record(1, 10), record(2, 23)]).unwrap();
    assert_eq!(st.update(7, request(50, "X", "T")).err(), Some(StoreError::NotFound));
    assert_eq!(st.update(1, request(23, "X", "T")).err(), Some(StoreError::Conflict));
    assert_eq!(st.get_by_id(1).unwrap().squad_number, 10);
    assert_eq!(st.get_by_id(1).unwrap().last_name, "Martinez");
    assert_eq!(st.list_all().len(), 2);
}

#[test]
fn delete_twice_is_not_found_the_second_time() {
    let mut st = rocket(vec![record(1, 10), record(2, 23), record(3, 5)]).unwrap();
    assert_eq!(st.delete(2), Ok(()));
    assert_eq!(st.delete(2), Err(StoreError::NotFound));
    let ids: Vec<u64> = st.list_all().iter().map(|p| p.id).collect();
    assert_eq!(ids, vec![1, 3]);
}

#[test]
fn uniqueness_holds_across_operations() {
    let mut st = Store::new();
    for n in 1..6u32 {
        st.create(request(n, "P", "T")).unwrap();
    }
    assert!(st.create(request(3, "P", "T")).is_err());
    assert!(st.update(1, request(5, "P", "T")).is_err());
    st.update(1, request(9, "P", "T")).unwrap();
    st.delete(4).unwrap();
    st.create(request(4, "P", "T")).unwrap();
    let all = st.list_all();
    for a in 0..all.len() {
        for b in 0..all.len() {
            if a != b {
                assert_ne!(all[a].id, all[b].id);
                assert_ne!(all[a].squad_number, all[b].squad_number);
            }
        }
    }
}

#[test]
fn rocket_rejects_duplicates() {
    assert_eq!(rocket(vec![record(1, 10), record(1, 11)]).err(), Some(LoadError::DuplicateId));
    assert_eq!(
        rocket(vec![record(1, 10), record(2, 10)]).err(),
        Some(LoadError::DuplicateSquadNumber)
    );
    assert_eq!(rocket(vec![record(1, 10), record(1, 10)]).err(), Some(LoadError::DuplicateId));
    let st = rocket(vec![record(3, 1), record(1, 2)]).unwrap();
    let ids: Vec<u64> = st.list_all().iter().map(|p| p.id).collect();
    assert_eq!(ids, vec![3, 1]);
}

#[test]
fn index_returns_greeting() {
    assert_eq!(index(), "Sample REST API with Rust and Rocket");
}

#[test]
fn response_carries_every_field() {
    let p = Player::from_request(8, request(19, "Martinez", "Aston Villa FC"));
    let r = p.to_response();
    assert_eq!(r.id, 8);
    assert_eq!(r.squad_number, 19);
    assert_eq!(r.first_name, "Emiliano");
    assert_eq!(r.last_name, "Martinez");
    assert_eq!(r.date_of_birth, "1992-09-02");
    assert_eq!(r.position, "Goalkeeper");
    assert_eq!(r.abbr_position, "GK");
    assert_eq!(r.team, "Aston Villa FC");
    assert_eq!(r.league, "Premier League");
    assert!(r.starting11);
    let d = p.duplicate();
    assert_eq!(d.last_name, p.last_name);
}
