use vstd::prelude::*;
use crate::seqs::{find_first, lemma_first_match_at, lemma_first_match_none};

verus! {

/// The service settings: credentials, model names, voice and token budgets.
#[derive(Debug)]
pub struct Env {
    api_key: String,
    text_model: String,
    voice_model: String,
    pub context_size: u64,
    pub answer_max: u64,
    google_api_key: String,
    voice: String,
    project_id: String,
}

pub struct EnvView {
    pub api_key: Seq<char>,
    pub text_model: Seq<char>,
    pub voice_model: Seq<char>,
    pub context_size: u64,
    pub answer_max: u64,
    pub google_api_key: Seq<char>,
    pub voice: Seq<char>,
    pub project_id: Seq<char>,
}

impl View for Env {
    type V = EnvView;

    closed spec fn view(&self) -> EnvView {
        EnvView {
            api_key: self.api_key@,
            text_model: self.text_model@,
            voice_model: self.voice_model@,
            context_size: self.context_size,
            answer_max: self.answer_max,
            google_api_key: self.google_api_key@,
            voice: self.voice@,
            project_id: self.project_id@,
        }
    }
}

pub open spec fn is_digit(c: char) -> bool {
    '0' <= c && c <= '9'
}

/// The number that a string of decimal digits writes.
pub open spec fn digits_value(s: Seq<char>) -> int
    decreases s.len(),
{
    if s.len() == 0 {
        0
    } else {
        digits_value(s.drop_last()) * 10 + (s.last() as int - '0' as int)
    }
}

/// An optional `+` and then one or more decimal digits, whose value fits in 64 bits.
pub open spec fn parsed_u64(s: Seq<char>) -> Option<u64> {
    let digits = if s.len() > 0 && s[0] == '+' {
        s.drop_first()
    } else {
        s
    };
    if digits.len() > 0 && (forall|i: int| 0 <= i < digits.len() ==> is_digit(digits[i])) && digits_value(digits)
        <= u64::MAX {
        Some(digits_value(digits) as u64)
    } else {
        None
    }
}

/// Relies on `<u64 as FromStr>::from_str`: an optional `+` followed by decimal
/// digits, in range, is its value; anything else is an error.
#[verifier::external_body]
fn parse_u64(s: &str) -> (r: Option<u64>)
    ensures
        r == parsed_u64(s@),
{
    s.parse::<u64>().ok()
}

pub open spec fn var_named(key: Seq<char>) -> spec_fn((Seq<char>, Seq<char>)) -> bool {
    |v: (Seq<char>, Seq<char>)| v.0 == key
}

pub open spec fn vars_view(vars: Seq<(String, String)>) -> Seq<(Seq<char>, Seq<char>)> {
    vars.map_values(|v: (String, String)| (v.0@, v.1@))
}

/// The value of the first variable named `key`.
pub open spec fn lookup(vars: Seq<(Seq<char>, Seq<char>)>, key: Seq<char>) -> Option<Seq<char>> {
    match find_first(vars, var_named(key)) {
        Some(v) => Some(v.1),
        None => None,
    }
}

fn find_var(vars: &Vec<(String, String)>, key: &str) -> (r: Option<String>)
    ensures
        match r {
            Some(v) => lookup(vars_view(vars@), key@) == Some(v@),
            None => lookup(vars_view(vars@), key@) is None,
        },
{
    let ghost vv = vars_view(vars@);
    let wanted = key.to_owned();
    let mut i: usize = 0;
    while i < vars.len()
        invariant
            i <= vars.len(),
            vv == vars_view(vars@),
            wanted@ == key@,
            forall|j: int| 0 <= j < i ==> !var_named(key@)(vv[j]),
        decreases vars.len() - i,
    {
        if vars[i].0 == wanted {
            proof {
                lemma_first_match_at(vv, var_named(key@), i as int);
            }
            return Some(vars[i].1.clone());
        }
        i += 1;
    }
    proof {
        lemma_first_match_none(vv, var_named(key@));
    }
    None
}

pub const API_KEY: &'static str = "API_KEY";
pub const TEXT_MODEL: &'static str = "TEXT_MODEL";
pub const VOICE_MODEL: &'static str = "VOICE_MODEL";
pub const CONTEXT_SIZE: &'static str = "CONTEXT_SIZE";
pub const ANSWER_MAX: &'static str = "ANSWER_MAX";
pub const GOOGLE_API_KEY: &'static str = "GOOGLE_API_KEY";
pub const VOICE: &'static str = "VOICE";
pub const PROJECT_ID: &'static str = "PROJECT_ID";

/// The settings that a set of variables gives: each one present, the two sizes decimal.
pub open spec fn env_from(vars: Seq<(Seq<char>, Seq<char>)>) -> Option<EnvView> {
    let context = match lookup(vars, CONTEXT_SIZE@) {
        Some(s) => parsed_u64(s),
        None => None,
    };
    let answer = match lookup(vars, ANSWER_MAX@) {
        Some(s) => parsed_u64(s),
        None => None,
    };
    if lookup(vars, API_KEY@) is Some && lookup(vars, TEXT_MODEL@) is Some && lookup(vars, VOICE_MODEL@) is Some
        && context is Some && answer is Some && lookup(vars, GOOGLE_API_KEY@) is Some && lookup(vars, VOICE@) is Some
        && lookup(vars, PROJECT_ID@) is Some {
        Some(
            EnvView {
                api_key: lookup(vars, API_KEY@)->0,
                text_model: lookup(vars, TEXT_MODEL@)->0,
                voice_model: lookup(vars, VOICE_MODEL@)->0,
                context_size: context->0,
                answer_max: answer->0,
                google_api_key: lookup(vars, GOOGLE_API_KEY@)->0,
                voice: lookup(vars, VOICE@)->0,
                project_id: lookup(vars, PROJECT_ID@)->0,
            },
        )
    } else {
        None
    }
}

impl Env {
    /// Reads the settings from variables given as (name, value) pairs.
    pub fn from_vars(vars: &Vec<(String, String)>) -> (r: Option<Env>)
        ensures
            match r {
                Some(e) => env_from(vars_view(vars@)) == Some(e@),
                None => env_from(vars_view(vars@)) is None,
            },
    {
        let api_key = find_var(vars, API_KEY);
        let text_model = find_var(vars, TEXT_MODEL);
        let voice_model = find_var(vars, VOICE_MODEL);
        let context = find_var(vars, CONTEXT_SIZE);
        let answer = find_var(vars, ANSWER_MAX);
        let google_api_key = find_var(vars, GOOGLE_API_KEY);
        let voice = find_var(vars, VOICE);
        let project_id = find_var(vars, PROJECT_ID);
        let context_size = match &context {
            Some(s) => parse_u64(s.as_str()),
            None => None,
        };
        let answer_max = match &answer {
            Some(s) => parse_u64(s.as_str()),
            None => None,
        };
        match (api_key, text_model, voice_model, context_size, answer_max, google_api_key, voice, project_id) {
            (
                Some(api_key),
                Some(text_model),
                Some(voice_model),
                Some(context_size),
                Some(answer_max),
                Some(google_api_key),
                Some(voice),
                Some(project_id),
            ) => Some(
                Env {
                    api_key,
                    text_model,
                    voice_model,
                    context_size,
                    answer_max,
                    google_api_key,
                    voice,
                    project_id,
                },
            ),
            _ => None,
        }
    }

    pub fn text_model(&self) -> (r: String)
        ensures
            r@ == self@.text_model,
    {
        self.text_model.clone()
    }

    pub fn voice_model(&self) -> (r: String)
        ensures
            r@ == self@.voice_model,
    {
        self.voice_model.clone()
    }

    pub fn api_key(&self) -> (r: String)
        ensures
            r@ == self@.api_key,
    {
        self.api_key.clone()
    }

    pub fn voice(&self) -> (r: String)
        ensures
            r@ == self@.voice,
    {
        self.voice.clone()
    }

    pub fn google_api_key(&self) -> (r: String)
        ensures
            r@ == self@.google_api_key,
    {
        self.google_api_key.clone()
    }

    pub fn project_id(&self) -> (r: String)
        ensures
            r@ == self@.project_id,
    {
        self.project_id.clone()
    }
}

} // verus!
