use vstd::prelude::*;

verus! {

/// A pair of images offered to a user, under the comparison's identifier.
pub struct Comparison {
    pub id: String,
    pub images: Vec<String>,
}

impl Default for Comparison {
    /// A placeholder comparison: empty identifier, two empty image paths.
    fn default() -> (r: Self)
        ensures
            r.id@ == Seq::<char>::empty(),
            r.images@.len() == 2,
            r.images@[0]@ == Seq::<char>::empty(),
            r.images@[1]@ == Seq::<char>::empty(),
    {
        let mut images: Vec<String> = Vec::new();
        images.push(String::new());
        images.push(String::new());
        Comparison { id: String::new(), images }
    }
}

/// A user's verdict on a comparison.
#[derive(Debug, PartialEq)]
pub enum VoteValue {
    Equal,
    Different,
    /// The image, by path, that the user found better.
    OneIsBetter(String),
}

/// A vote as it is sent to the server.
pub struct Vote {
    pub comparison_id: String,
    pub comparison_images: Vec<String>,
    pub user_id: String,
    pub vote_value: VoteValue,
    pub user_agent: Option<String>,
    pub language: Option<String>,
}

impl Vote {
    /// A vote on `comparison`, carrying the environment's user agent and
    /// locale, with no user yet and no image chosen yet.
    pub fn build(comparison: Comparison, user_agent: Option<String>, language: Option<String>) -> (r:
        Self)
        ensures
            r.comparison_id == comparison.id,
            r.comparison_images == comparison.images,
            r.user_id@ == Seq::<char>::empty(),
            r.vote_value matches VoteValue::OneIsBetter(s) && s@ == Seq::<char>::empty(),
            r.user_agent == user_agent,
            r.language == language,
    {
        Vote {
            comparison_id: comparison.id,
            comparison_images: comparison.images,
            user_id: String::new(),
            vote_value: VoteValue::OneIsBetter(String::new()),
            user_agent,
            language,
        }
    }

    /// The same vote, cast by `user_id`.
    pub fn user(self, user_id: String) -> (r: Self)
        ensures
            r == (Vote { user_id, ..self }),
    {
        let mut v = self;
        v.user_id = user_id;
        v
    }

    /// The same vote, with the verdict `vote_value`.
    pub fn vote(self, vote_value: VoteValue) -> (r: Self)
        ensures
            r == (Vote { vote_value, ..self }),
    {
        let mut v = self;
        v.vote_value = vote_value;
        v
    }
}

/// A server reply: the requested data, or an error.
pub struct Response<T, E> {
    pub data: Option<T>,
    pub error: Option<E>,
}

impl<T, E> Response<T, E> {
    /// The reply as a `Result`: the data where there is any, otherwise the
    /// error. A reply carries at least one of the two.
    pub fn as_result(self) -> (r: Result<T, E>)
        requires
            self.data is Some || self.error is Some,
        ensures
            match self.data {
                Some(d) => r == Ok::<T, E>(d),
                None => r == Err::<T, E>(self.error->0),
            },
    {
        let Response { data, error } = self;
        match data {
            Some(data) => Ok(data),
            None => Err(error.unwrap()),
        }
    }
}

} // verus!
