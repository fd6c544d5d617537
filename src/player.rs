use vstd::prelude::*;

verus! {

/// The fields of a player that a client supplies: everything but the identifier.
pub struct PlayerRequest {
    pub first_name: String,
    pub middle_name: String,
    pub last_name: String,
    pub date_of_birth: String,
    pub squad_number: u32,
    pub position: String,
    pub abbr_position: String,
    pub team: String,
    pub league: String,
    pub starting11: bool,
}

/// A stored player record, with its server-assigned identifier.
pub struct Player {
    pub id: u64,
    pub first_name: String,
    pub middle_name: String,
    pub last_name: String,
    pub date_of_birth: String,
    pub squad_number: u32,
    pub position: String,
    pub abbr_position: String,
    pub team: String,
    pub league: String,
    pub starting11: bool,
}

/// The record as it is sent back to a client: the full field set, identifier included.
pub struct PlayerResponse {
    pub id: u64,
    pub first_name: String,
    pub middle_name: String,
    pub last_name: String,
    pub date_of_birth: String,
    pub squad_number: u32,
    pub position: String,
    pub abbr_position: String,
    pub team: String,
    pub league: String,
    pub starting11: bool,
}

/// The record that a request becomes once it is given the identifier `id`.
pub open spec fn player_of(id: u64, req: PlayerRequest) -> Player {
    Player {
        id,
        first_name: req.first_name,
        middle_name: req.middle_name,
        last_name: req.last_name,
        date_of_birth: req.date_of_birth,
        squad_number: req.squad_number,
        position: req.position,
        abbr_position: req.abbr_position,
        team: req.team,
        league: req.league,
        starting11: req.starting11,
    }
}

/// The response that carries the record `p`, field for field.
pub open spec fn response_of(p: Player) -> PlayerResponse {
    PlayerResponse {
        id: p.id,
        first_name: p.first_name,
        middle_name: p.middle_name,
        last_name: p.last_name,
        date_of_birth: p.date_of_birth,
        squad_number: p.squad_number,
        position: p.position,
        abbr_position: p.abbr_position,
        team: p.team,
        league: p.league,
        starting11: p.starting11,
    }
}

impl Player {
    /// Builds the record for `req` under the identifier `id`.
    pub fn from_request(id: u64, req: PlayerRequest) -> (r: Player)
        ensures
            r == player_of(id, req),
    {
        Player {
            id,
            first_name: req.first_name,
            middle_name: req.middle_name,
            last_name: req.last_name,
            date_of_birth: req.date_of_birth,
            squad_number: req.squad_number,
            position: req.position,
            abbr_position: req.abbr_position,
            team: req.team,
            league: req.league,
            starting11: req.starting11,
        }
    }

    /// A copy of the record that shares nothing with it.
    pub fn duplicate(&self) -> (r: Player)
        ensures
            r == *self,
    {
        Player {
            id: self.id,
            first_name: self.first_name.clone(),
            middle_name: self.middle_name.clone(),
            last_name: self.last_name.clone(),
            date_of_birth: self.date_of_birth.clone(),
            squad_number: self.squad_number,
            position: self.position.clone(),
            abbr_position: self.abbr_position.clone(),
            team: self.team.clone(),
            league: self.league.clone(),
            starting11: self.starting11,
        }
    }

    /// The outbound projection of the record.
    pub fn to_response(&self) -> (r: PlayerResponse)
        ensures
            r == response_of(*self),
    {
        PlayerResponse {
            id: self.id,
            first_name: self.first_name.clone(),
            middle_name: self.middle_name.clone(),
            last_name: self.last_name.clone(),
            date_of_birth: self.date_of_birth.clone(),
            squad_number: self.squad_number,
            position: self.position.clone(),
            abbr_position: self.abbr_position.clone(),
            team: self.team.clone(),
            league: self.league.clone(),
            starting11: self.starting11,
        }
    }
}

} // verus!
