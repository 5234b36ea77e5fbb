//! Validation of whole requests: creating users, alone or in batches, and
//! updating them.

use vstd::prelude::*;

use crate::rules::{
    age_errors, error_of, finish, general_error, name_errors, reports, validate_age,
    validate_name, ValidationResult,
};
use crate::user::{errors_view, CreateUser, UpdateUser, ValidationError, ValidationErrorView};

verus! {

/// The key-value pairs of a `Metadata`, later pairs overriding earlier ones.
pub open spec fn pairs_map(pairs: Seq<(String, String)>) -> Map<Seq<char>, Seq<char>>
    decreases pairs.len(),
{
    if pairs.len() == 0 {
        Map::empty()
    } else {
        pairs_map(pairs.drop_last()).insert(pairs.last().0@, pairs.last().1@)
    }
}

/// String metadata attached to a validation: a map from keys to values.
#[derive(Debug, Clone)]
pub struct Metadata {
    pairs: Vec<(String, String)>,
}

impl View for Metadata {
    type V = Map<Seq<char>, Seq<char>>;

    closed spec fn view(&self) -> Map<Seq<char>, Seq<char>> {
        pairs_map(self.pairs@)
    }
}

proof fn lemma_pairs_map_last_match(pairs: Seq<(String, String)>, key: Seq<char>, i: int)
    requires
        0 <= i < pairs.len(),
        pairs[i].0@ == key,
        forall|j: int| i < j < pairs.len() ==> (#[trigger] pairs[j]).0@ != key,
    ensures
        pairs_map(pairs).contains_key(key),
        pairs_map(pairs)[key] == pairs[i].1@,
    decreases pairs.len(),
{
    if i < pairs.len() - 1 {
        let rest = pairs.drop_last();
        assert forall|j: int| i < j < rest.len() implies (#[trigger] rest[j]).0@ != key by {
            assert(rest[j] == pairs[j]);
        }
        lemma_pairs_map_last_match(rest, key, i);
        assert(pairs[pairs.len() - 1].0@ != key);
    }
}

proof fn lemma_pairs_map_no_match(pairs: Seq<(String, String)>, key: Seq<char>)
    requires
        forall|j: int| 0 <= j < pairs.len() ==> (#[trigger] pairs[j]).0@ != key,
    ensures
        !pairs_map(pairs).contains_key(key),
    decreases pairs.len(),
{
    if pairs.len() > 0 {
        let rest = pairs.drop_last();
        assert forall|j: int| 0 <= j < rest.len() implies (#[trigger] rest[j]).0@ != key by {
            assert(rest[j] == pairs[j]);
        }
        lemma_pairs_map_no_match(rest, key);
        assert(pairs[pairs.len() - 1].0@ != key);
    }
}

impl Metadata {
    /// No metadata.
    pub fn new() -> (r: Metadata)
        ensures
            r@ == Map::<Seq<char>, Seq<char>>::empty(),
    {
        Metadata { pairs: Vec::new() }
    }

    /// Whether no key has a value.
    pub fn is_empty(&self) -> (r: bool)
        ensures
            r == (self@ == Map::<Seq<char>, Seq<char>>::empty()),
    {
        proof {
            if self.pairs@.len() > 0 {
                let last = self.pairs@.last();
                assert(self@.contains_key(last.0@));
            }
        }
        self.pairs.len() == 0
    }

    /// The value of `key`, if it has one.
    pub fn get(&self, key: &str) -> (r: Option<&String>)
        ensures
            r is Some <==> self@.contains_key(key@),
            r matches Some(v) ==> self@[key@] == v@,
    {
        let wanted = String::from_str(key);
        let mut i: usize = self.pairs.len();
        while i > 0
            invariant
                i <= self.pairs@.len(),
                wanted@ == key@,
                forall|j: int| i <= j < self.pairs@.len() ==> (#[trigger] self.pairs@[j]).0@
                    != key@,
            decreases i,
        {
            i = i - 1;
            if self.pairs[i].0 == wanted {
                proof {
                    lemma_pairs_map_last_match(self.pairs@, key@, i as int);
                }
                return Some(&self.pairs[i].1);
            }
        }
        proof {
            lemma_pairs_map_no_match(self.pairs@, key@);
        }
        None
    }

    /// Gives `key` the value `value`, replacing any earlier one.
    pub fn insert(&mut self, key: String, value: String)
        ensures
            final(self)@ == old(self)@.insert(key@, value@),
    {
        let ghost before = self.pairs@;
        self.pairs.push((key, value));
        assert(self.pairs@.drop_last() == before);
    }
}

/// Context handed to the validators.
#[derive(Debug, Clone)]
pub struct ValidationContext {
    /// Whether the validation is a strict one (for an API endpoint, say).
    pub strict: bool,
    /// Further data that validators may use.
    pub metadata: Metadata,
}

impl ValidationContext {
    /// A lenient context without metadata.
    pub fn new() -> (r: ValidationContext)
        ensures
            !r.strict,
            r.metadata@ == Map::<Seq<char>, Seq<char>>::empty(),
    {
        ValidationContext { strict: false, metadata: Metadata::new() }
    }

    /// A strict context without metadata.
    pub fn strict() -> (r: ValidationContext)
        ensures
            r.strict,
            r.metadata@ == Map::<Seq<char>, Seq<char>>::empty(),
    {
        ValidationContext { strict: true, metadata: Metadata::new() }
    }

    /// This context with `key` set to `value` in its metadata.
    pub fn with_metadata(self, key: &str, value: &str) -> (r: ValidationContext)
        ensures
            r.strict == self.strict,
            r.metadata@ == self.metadata@.insert(key@, value@),
    {
        let mut context = self;
        context.metadata.insert(String::from_str(key), String::from_str(value));
        context
    }
}

impl Default for ValidationContext {
    fn default() -> (r: ValidationContext)
        ensures
            !r.strict,
            r.metadata@ == Map::<Seq<char>, Seq<char>>::empty(),
    {
        ValidationContext::new()
    }
}

/// The errors of a user to create: those of its name, then those of its age.
pub open spec fn create_errors(user: CreateUser) -> Seq<ValidationErrorView> {
    name_errors(user.name@, "name"@) + age_errors(user.age, "age"@)
}

/// Checks a user to create.
pub fn validate_create_user(user: &CreateUser) -> (r: ValidationResult)
    ensures
        reports(r, create_errors(*user)),
{
    validate_create_user_with_context(user, &ValidationContext::new())
}

fn append_failures(all: &mut Vec<ValidationError>, outcome: ValidationResult)
    ensures
        errors_view(final(all)@) == errors_view(old(all)@) + match outcome {
            Ok(_) => Seq::<ValidationErrorView>::empty(),
            Err(es) => errors_view(es@),
        },
{
    match outcome {
        Ok(_) => {
            assert(errors_view(final(all)@) =~= errors_view(old(all)@) + Seq::<
                ValidationErrorView,
            >::empty());
        },
        Err(es) => {
            let mut es = es;
            let ghost added = es@;
            all.append(&mut es);
            assert(errors_view(final(all)@) =~= errors_view(old(all)@) + errors_view(added));
        },
    }
}

proof fn lemma_reported(r: ValidationResult, expected: Seq<ValidationErrorView>)
    requires
        reports(r, expected),
    ensures
        expected == match r {
            Ok(_) => Seq::<ValidationErrorView>::empty(),
            Err(es) => errors_view(es@),
        },
{
    if r is Ok {
        assert(expected =~= Seq::<ValidationErrorView>::empty());
    }
}

/// Checks a user to create; the context does not change the rules.
pub fn validate_create_user_with_context(user: &CreateUser, _context: &ValidationContext) -> (r:
    ValidationResult)
    ensures
        reports(r, create_errors(*user)),
{
    let mut all_errors: Vec<ValidationError> = Vec::new();
    let by_name = validate_name(user.name.as_str(), "name");
    proof {
        lemma_reported(by_name, name_errors(user.name@, "name"@));
    }
    append_failures(&mut all_errors, by_name);
    let by_age = validate_age(user.age, "age");
    proof {
        lemma_reported(by_age, age_errors(user.age, "age"@));
    }
    append_failures(&mut all_errors, by_age);
    assert(errors_view(all_errors@) =~= create_errors(*user));
    finish(all_errors)
}

/// The failures among the first `n` users of a batch: the index of each user
/// that breaks a rule, with its errors, in batch order.
pub open spec fn batch_failures(users: Seq<CreateUser>, n: nat) -> Seq<
    (usize, Seq<ValidationErrorView>),
>
    decreases n,
{
    if n == 0 {
        Seq::empty()
    } else {
        let earlier = batch_failures(users, (n - 1) as nat);
        let errors = create_errors(users[n - 1]);
        if errors.len() > 0 {
            earlier.push(((n - 1) as usize, errors))
        } else {
            earlier
        }
    }
}

/// The views of a list of batch failures.
pub open spec fn failures_view(f: Seq<(usize, Vec<ValidationError>)>) -> Seq<
    (usize, Seq<ValidationErrorView>),
> {
    f.map_values(|p: (usize, Vec<ValidationError>)| (p.0, errors_view(p.1@)))
}

/// Checks every user of a batch, reporting each one that fails by its
/// index.
pub fn validate_create_user_batch(users: &[CreateUser]) -> (r: Result<
    (),
    Vec<(usize, Vec<ValidationError>)>,
>)
    ensures
        match r {
            Ok(_) => batch_failures(users@, users@.len()).len() == 0,
            Err(f) => batch_failures(users@, users@.len()).len() > 0 && failures_view(f@)
                == batch_failures(users@, users@.len()),
        },
{
    let mut failures: Vec<(usize, Vec<ValidationError>)> = Vec::new();
    let n = users.len();
    let mut i: usize = 0;
    while i < n
        invariant
            n == users@.len(),
            0 <= i <= n,
            failures_view(failures@) == batch_failures(users@, i as nat),
        decreases n - i,
    {
        let outcome = validate_create_user(&users[i]);
        match outcome {
            Ok(_) => {},
            Err(errors) => {
                let ghost before = failures@;
                failures.push((i, errors));
                assert(failures_view(failures@) =~= failures_view(before).push(
                    (i, errors_view(errors@)),
                ));
            },
        }
        i = i + 1;
    }
    if failures.len() == 0 {
        Ok(())
    } else {
        Err(failures)
    }
}

/// The errors of the fields that an update sets.
pub open spec fn set_field_errors(user: UpdateUser) -> Seq<ValidationErrorView> {
    (match user.name {
        Some(name) => name_errors(name@, "name"@),
        None => Seq::empty(),
    }) + (match user.age {
        Some(age) => age_errors(age, "age"@),
        None => Seq::empty(),
    })
}

/// The errors of an update: one general error if it sets no field, else
/// those of the fields it sets.
pub open spec fn update_errors(user: UpdateUser) -> Seq<ValidationErrorView> {
    if user.name is None && user.age is None {
        seq![error_of("At least one field (name or age) must be provided for update"@, None)]
    } else {
        set_field_errors(user)
    }
}

/// Checks an update.
pub fn validate_update_user(user: &UpdateUser) -> (r: ValidationResult)
    ensures
        reports(r, update_errors(*user)),
{
    validate_update_user_with_context(user, &ValidationContext::new())
}

fn check_set_fields(user: &UpdateUser) -> (r: ValidationResult)
    ensures
        reports(r, set_field_errors(*user)),
{
    let mut all_errors: Vec<ValidationError> = Vec::new();
    if let Some(name) = &user.name {
        let by_name = validate_name(name.as_str(), "name");
        proof {
            lemma_reported(by_name, name_errors(name@, "name"@));
        }
        append_failures(&mut all_errors, by_name);
    }
    if let Some(age) = user.age {
        let by_age = validate_age(age, "age");
        proof {
            lemma_reported(by_age, age_errors(age, "age"@));
        }
        append_failures(&mut all_errors, by_age);
    }
    assert(errors_view(all_errors@) =~= set_field_errors(*user));
    finish(all_errors)
}

/// Checks an update; the context does not change the rules.
pub fn validate_update_user_with_context(user: &UpdateUser, _context: &ValidationContext) -> (r:
    ValidationResult)
    ensures
        reports(r, update_errors(*user)),
{
    if user.name.is_none() && user.age.is_none() {
        let errors = vec![
            general_error("At least one field (name or age) must be provided for update"),
        ];
        assert(errors_view(errors@) =~= update_errors(*user));
        return Err(errors);
    }
    check_set_fields(user)
}

/// Checks the fields that an update sets, accepting an update that sets
/// none.
pub fn validate_partial_update_user(user: &UpdateUser) -> (r: ValidationResult)
    ensures
        reports(r, set_field_errors(*user)),
{
    check_set_fields(user)
}

} // verus!
