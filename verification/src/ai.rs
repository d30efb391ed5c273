use vstd::prelude::*;

use crate::text::{chars_vec, decimal, push_chars_range, push_decimal, push_str, starts_with, str_eq, string_views};

verus! {

/// The longest message, in characters, that is sent at once.
pub const MAX_MESSAGE_LENGTH: usize = 2000;

/// The model used for users who have chosen none.
pub open spec fn default_model() -> Seq<char> {
    "llama3.1:8b"@
}

/// The pieces a long answer is sent in: consecutive runs of at most
/// `MAX_MESSAGE_LENGTH` characters, all full but the last.
pub open spec fn message_chunks(s: Seq<char>) -> Seq<Seq<char>>
    decreases s.len(),
{
    if s.len() == 0 {
        Seq::empty()
    } else if s.len() <= MAX_MESSAGE_LENGTH {
        seq![s]
    } else {
        seq![s.take(MAX_MESSAGE_LENGTH as int)] + message_chunks(s.skip(MAX_MESSAGE_LENGTH as int))
    }
}

/// Sent one after the other, the pieces of an answer give back the whole answer, and no
/// piece is empty or longer than a message may be.
pub proof fn lemma_chunks_rejoin(s: Seq<char>)
    ensures
        message_chunks(s).flatten() == s,
        forall|i: int|
            0 <= i < message_chunks(s).len() ==> 0 < (#[trigger] message_chunks(s)[i]).len()
                <= MAX_MESSAGE_LENGTH,
    decreases s.len(),
{
    if s.len() == 0 {
    } else if s.len() <= MAX_MESSAGE_LENGTH {
        let c = message_chunks(s);
        assert(c.drop_first() =~= Seq::<Seq<char>>::empty());
        assert(c.drop_first().flatten() =~= Seq::<char>::empty());
        assert(c.first().add(Seq::<char>::empty()) =~= s);
    } else {
        let rest = s.skip(MAX_MESSAGE_LENGTH as int);
        lemma_chunks_rejoin(rest);
        let c = message_chunks(s);
        assert(c.first() == s.take(MAX_MESSAGE_LENGTH as int));
        assert(c.drop_first() =~= message_chunks(rest));
        assert(s.take(MAX_MESSAGE_LENGTH as int) + rest =~= s);
        assert forall|i: int| 0 <= i < c.len() implies 0 < (#[trigger] c[i]).len()
            <= MAX_MESSAGE_LENGTH by {
            if i > 0 {
                assert(c[i] == message_chunks(rest)[i - 1]);
            }
        }
    }
}

/// Splits a long answer into the messages it is sent as.
pub fn chunk_response(response: &str) -> (r: Vec<String>)
    ensures
        string_views(r@) == message_chunks(response@),
{
    let chars = chars_vec(response);
    let ghost s = chars@;
    let mut out: Vec<String> = Vec::new();
    let mut pos: usize = 0;
    proof {
        assert(s.skip(0) =~= s);
        assert(string_views(out@) =~= Seq::<Seq<char>>::empty());
        assert(Seq::<Seq<char>>::empty() + message_chunks(s) =~= message_chunks(s));
    }
    while pos < chars.len()
        invariant
            s == chars@,
            s == response@,
            pos <= chars@.len(),
            string_views(out@) + message_chunks(s.skip(pos as int)) == message_chunks(s),
        decreases chars@.len() - pos,
    {
        let rest_len = chars.len() - pos;
        let len: usize = if rest_len < MAX_MESSAGE_LENGTH {
            rest_len
        } else {
            MAX_MESSAGE_LENGTH
        };
        let mut piece = String::new();
        push_chars_range(&mut piece, &chars, pos, pos + len);
        let ghost rest = s.skip(pos as int);
        proof {
            assert(piece@ =~= s.subrange(pos as int, pos + len));
            if rest.len() <= MAX_MESSAGE_LENGTH {
                assert(rest =~= piece@);
                assert(s.skip(pos + len) =~= Seq::<char>::empty());
                assert(message_chunks(rest) == seq![piece@]);
            } else {
                assert(rest.take(MAX_MESSAGE_LENGTH as int) =~= piece@);
                assert(rest.skip(MAX_MESSAGE_LENGTH as int) =~= s.skip(pos + len));
            }
        }
        let ghost before = string_views(out@);
        out.push(piece);
        proof {
            assert(string_views(out@) =~= before.push(piece@));
            assert(before.push(piece@) + message_chunks(s.skip(pos + len)) =~= before + (seq![piece@]
                + message_chunks(s.skip(pos + len))));
        }
        pos = pos + len;
    }
    proof {
        assert(s.skip(pos as int) =~= Seq::<char>::empty());
        assert(string_views(out@) + Seq::<Seq<char>>::empty() =~= string_views(out@));
    }
    out
}

/// A user's choice of model, as it is stored.
pub struct UserPreference {
    /// The user's id, in decimal.
    pub user_id: String,
    pub username: String,
    pub model: String,
}

impl UserPreference {
    /// The preference of the user with id `user_id` and name `username` for `model`.
    pub fn new(user_id: u64, username: &str, model: &str) -> (p: UserPreference)
        ensures
            p.user_id@ == decimal(user_id as nat),
            p.username@ == username@,
            p.model@ == model@,
    {
        let mut id = String::new();
        push_decimal(&mut id, user_id);
        UserPreference { user_id: id, username: username.to_string(), model: model.to_string() }
    }
}

/// The model of a user: the stored choice, or the default model where none was found.
pub fn model_or_default(stored: Option<String>) -> (m: String)
    ensures
        m@ == match stored {
            Some(s) => s@,
            None => default_model(),
        },
{
    match stored {
        Some(s) => s,
        None => "llama3.1:8b".to_string(),
    }
}

/// The answer to a chat message: who asked what, and what the model said.
pub fn chat_reply(author: &str, message: &str, content: &str) -> (s: String)
    ensures
        s@ == "**"@ + author@ + "**: "@ + message@ + "\n\n**AI**: "@ + content@,
{
    let mut s = "**".to_string();
    push_str(&mut s, author);
    push_str(&mut s, "**: ");
    push_str(&mut s, message);
    push_str(&mut s, "\n\n**AI**: ");
    push_str(&mut s, content);
    s
}

/// The lines listing the first `n` model names.
pub open spec fn model_lines(names: Seq<Seq<char>>, n: nat) -> Seq<char>
    decreases n,
{
    if n == 0 {
        Seq::empty()
    } else {
        model_lines(names, (n - 1) as nat) + "- "@ + names[n - 1] + "\n"@
    }
}

/// The list of available models.
pub fn list_models_text(names: &Vec<String>) -> (s: String)
    ensures
        s@ == "Here are the available models:\n"@ + model_lines(string_views(names@), names@.len()),
{
    let mut s = "Here are the available models:\n".to_string();
    let ghost head = s@;
    let mut i: usize = 0;
    while i < names.len()
        invariant
            i <= names@.len(),
            s@ == head + model_lines(string_views(names@), i as nat),
        decreases names@.len() - i,
    {
        let ghost before = s@;
        push_str(&mut s, "- ");
        push_str(&mut s, names[i].as_str());
        push_str(&mut s, "\n");
        assert(string_views(names@)[i as int] == names@[i as int]@);
        assert(s@ =~= head + model_lines(string_views(names@), (i + 1) as nat));
        i = i + 1;
    }
    s
}

/// Whether `model` is one of the available model names.
pub fn model_available(names: &Vec<String>, model: &str) -> (b: bool)
    ensures
        b == exists|i: int| 0 <= i < names@.len() && #[trigger] names@[i]@ == model@,
{
    let mut i: usize = 0;
    while i < names.len()
        invariant
            i <= names@.len(),
            forall|j: int| 0 <= j < i ==> #[trigger] names@[j]@ != model@,
        decreases names@.len() - i,
    {
        if str_eq(names[i].as_str(), model) {
            return true;
        }
        i = i + 1;
    }
    false
}

/// `prefix` starts `s`.
pub open spec fn has_prefix(s: Seq<char>, prefix: Seq<char>) -> bool {
    prefix.len() <= s.len() && s.take(prefix.len() as int) == prefix
}

/// The names that start with `partial`, in their order.
pub open spec fn names_with_prefix(names: Seq<Seq<char>>, partial: Seq<char>) -> Seq<Seq<char>>
    decreases names.len(),
{
    if names.len() == 0 {
        Seq::empty()
    } else {
        names_with_prefix(names.drop_last(), partial) + if has_prefix(names.last(), partial) {
            seq![names.last()]
        } else {
            Seq::empty()
        }
    }
}

/// The model names that start with what the user has typed, in their order.
pub fn autocomplete_model(names: &Vec<String>, partial: &str) -> (r: Vec<String>)
    ensures
        string_views(r@) == names_with_prefix(string_views(names@), partial@),
{
    let mut r: Vec<String> = Vec::new();
    let mut i: usize = 0;
    while i < names.len()
        invariant
            i <= names@.len(),
            string_views(r@) == names_with_prefix(string_views(names@).take(i as int), partial@),
        decreases names@.len() - i,
    {
        proof {
            assert(string_views(names@).take(i + 1).drop_last() =~= string_views(names@).take(
                i as int,
            ));
            assert(string_views(names@).take(i + 1).last() == names@[i as int]@);
        }
        let ghost before = string_views(r@);
        if starts_with(names[i].as_str(), partial) {
            r.push(names[i].clone());
            assert(string_views(r@) =~= before + seq![names@[i as int]@]);
        } else {
            assert(before + Seq::<Seq<char>>::empty() =~= before);
        }
        i = i + 1;
    }
    assert(string_views(names@).take(names@.len() as int) =~= string_views(names@));
    r
}

/// The answer when a user asks for a model that is not available.
pub fn unavailable_model_text(model: &str) -> (s: String)
    ensures
        s@ == "Model '"@ + model@ + "' is not available. Use `/ai list_models` to see available models."@,
{
    let mut s = "Model '".to_string();
    push_str(&mut s, model);
    push_str(&mut s, "' is not available. Use `/ai list_models` to see available models.");
    s
}

/// What asking for `model` leads to, given the names of the models that are available:
/// the preference to store for the user where the model is one of them, else the answer
/// that it is not available (and nothing is stored).
pub fn model_request(names: &Vec<String>, user_id: u64, username: &str, model: &str) -> (r: Result<
    UserPreference,
    String,
>)
    ensures
        (exists|i: int| 0 <= i < names@.len() && #[trigger] names@[i]@ == model@) ==> (r matches Ok(
            p,
        ) && p.user_id@ == decimal(user_id as nat) && p.username@ == username@ && p.model@ == model@),
        !(exists|i: int| 0 <= i < names@.len() && #[trigger] names@[i]@ == model@) ==> (r matches Err(
            s,
        ) && s@ == "Model '"@ + model@ + "' is not available. Use `/ai list_models` to see available models."@),
{
    if model_available(names, model) {
        Ok(UserPreference::new(user_id, username, model))
    } else {
        Err(unavailable_model_text(model))
    }
}

/// The answer when a user's model was stored.
pub fn model_set_text(model: &str) -> (s: String)
    ensures
        s@ == "Your preferred model has been set to '"@ + model@ + "'"@,
{
    let mut s = "Your preferred model has been set to '".to_string();
    push_str(&mut s, model);
    push_str(&mut s, "'");
    s
}

/// The answer when storing a user's model failed, with the failure's text.
pub fn preference_failed_text(error: &str) -> (s: String)
    ensures
        s@ == "Failed to set model preference: "@ + error@,
{
    let mut s = "Failed to set model preference: ".to_string();
    push_str(&mut s, error);
    s
}

/// The answer to a user who asks which model is theirs.
pub fn get_model_text(model: Option<&str>) -> (s: String)
    ensures
        s@ == match model {
            Some(m) => "Your currently active model is: **"@ + m@ + "**"@,
            None => "You do not have a user-defined model set or a default model available"@,
        },
{
    match model {
        Some(m) => {
            let mut s = "Your currently active model is: **".to_string();
            push_str(&mut s, m);
            push_str(&mut s, "**");
            s
        },
        None => "You do not have a user-defined model set or a default model available".to_string(),
    }
}

} // verus!
