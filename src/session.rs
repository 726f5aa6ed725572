use vstd::prelude::*;

use crate::error::{Error, ErrorKind};

verus! {

/// Where the authorization token of the CI provider is kept: a JSON file
/// with an `authorization` field.
pub struct Session {
    pub config_path: String,
}

/// What reading the token of a session at `path` gives, from whether a file
/// is there and the `authorization` field that its text parsed to, if any.
pub open spec fn auth_outcome(
    path: Seq<char>,
    config_found: bool,
    authorization: Option<String>,
) -> Result<Seq<char>, (ErrorKind, Seq<char>)> {
    if !config_found {
        Err((ErrorKind::NotFound, "failed to find config"@))
    } else {
        match authorization {
            None => Err((ErrorKind::NotFound, "authorization not present in "@ + path)),
            Some(a) => if a@.len() == 0 {
                Err((ErrorKind::NotFound, "authorization not set in "@ + path))
            } else {
                Ok(a@)
            },
        }
    }
}

impl Session {
    pub fn from(config_path: &String) -> (r: Session)
        ensures
            r.config_path@ == config_path@,
    {
        Session { config_path: config_path.clone() }
    }

    /// The authorization token, from whether the configuration file exists
    /// (`config_found`) and, where its text parsed as a configuration, its
    /// `authorization` field (`authorization` is `None` where it did not).
    pub fn resolve_auth(&self, config_found: bool, authorization: Option<String>) -> (r: Result<
        String,
        Error,
    >)
        ensures
            match r {
                Ok(token) => auth_outcome(
                    self.config_path@,
                    config_found,
                    authorization,
                ) == Ok::<Seq<char>, (ErrorKind, Seq<char>)>(token@),
                Err(e) => auth_outcome(
                    self.config_path@,
                    config_found,
                    authorization,
                ) == Err::<Seq<char>, (ErrorKind, Seq<char>)>(e@),
            },
    {
        if !config_found {
            return Err(Error::new(ErrorKind::NotFound, String::from_str("failed to find config")));
        }
        match authorization {
            None => {
                let mut message = String::from_str("authorization not present in ");
                message.append(self.config_path.as_str());
                Err(Error::new(ErrorKind::NotFound, message))
            },
            Some(token) => {
                if token.as_str().is_empty() {
                    let mut message = String::from_str("authorization not set in ");
                    message.append(self.config_path.as_str());
                    Err(Error::new(ErrorKind::NotFound, message))
                } else {
                    Ok(token)
                }
            },
        }
    }
}

} // verus!
