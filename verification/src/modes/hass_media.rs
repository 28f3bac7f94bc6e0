//! Home Assistant media player: the REST endpoints and credentials through
//! which the volume is read and set.

use vstd::prelude::*;

verus! {

/// Where and as whom to reach a Home Assistant media player.
#[derive(Debug, Clone)]
pub struct HassApi {
    /// Base URL of Home Assistant, such as `http://homeassistant.local:8123`.
    pub url: String,
    /// Long-lived access token.
    pub token: String,
    /// The media player entity, such as `media_player.living_room`.
    pub entity_id: String,
}

impl HassApi {
    /// An endpoint description.
    pub fn new(url: String, token: String, entity_id: String) -> (a: Self)
        ensures
            a.url@ == url@,
            a.token@ == token@,
            a.entity_id@ == entity_id@,
    {
        HassApi { url, token, entity_id }
    }

    /// The URL of the entity's state (`<url>/api/states/<entity_id>`).
    pub fn state_url(&self) -> (u: String)
        ensures
            u@ == self.url@ + "/api/states/"@ + self.entity_id@,
    {
        let mut u = String::from_str(self.url.as_str());
        u.append("/api/states/");
        u.append(self.entity_id.as_str());
        u
    }

    /// The URL of the `volume_set` service.
    pub fn volume_set_url(&self) -> (u: String)
        ensures
            u@ == self.url@ + "/api/services/media_player/volume_set"@,
    {
        let mut u = String::from_str(self.url.as_str());
        u.append("/api/services/media_player/volume_set");
        u
    }

    /// The `Authorization` header value (`Bearer <token>`).
    pub fn authorization(&self) -> (h: String)
        ensures
            h@ == "Bearer "@ + self.token@,
    {
        let mut h = String::from_str("Bearer ");
        h.append(self.token.as_str());
        h
    }
}

} // verus!
