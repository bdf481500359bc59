//! What holds of every lookup, proved from the steps' definitions.

use vstd::prelude::*;
use crate::cache::{entry_of, stored_of, ReadOutcomeView, WriteOutcome};
use crate::client::{
    after_call, after_lookup, after_write, cache_lookup, cache_write, first_step, provider_call,
    CacheLookupView, CacheWriteView, FetchErrorView, ProviderCallView, StepView,
};
use crate::json::{json_elements, DocumentView};
use crate::startup::{settings_of, SettingsView, StartupError};
use crate::token::{decoded, member, record, DecodeError, Field, TokenInfoView};

verus! {

/// A cache entry that holds a token record ends the lookup with that record:
/// the lookup starts at the cache, and the step after the hit is the end, so
/// that the provider is never called.
pub proof fn cache_hit_ends_the_lookup(
    api_key: Seq<char>,
    address: Seq<char>,
    entry: Seq<char>,
    info: TokenInfoView,
)
    requires
        decoded(entry) == Ok::<TokenInfoView, DecodeError>(info),
    ensures
        first_step(api_key, true, address) == StepView::Lookup(cache_lookup(api_key, address)),
        after_lookup(cache_lookup(api_key, address), Some(entry)) == StepView::Done(Ok(info)),
{
}

/// A cache entry that holds no token record ends the lookup with the reason
/// why: the step after the hit is the end, so that the provider is not asked
/// instead.
pub proof fn unreadable_cache_entry_ends_the_lookup(
    api_key: Seq<char>,
    address: Seq<char>,
    entry: Seq<char>,
    reason: DecodeError,
)
    requires
        decoded(entry) == Err::<TokenInfoView, DecodeError>(reason),
    ensures
        after_lookup(cache_lookup(api_key, address), Some(entry)) == StepView::Done(
            Err(FetchErrorView::BadCacheEntry(reason)),
        ),
{
}

/// Without a cache, a lookup starts at the provider, and a response whose
/// first element holds a token record ends it with that record.
pub proof fn first_object_is_returned(
    api_key: Seq<char>,
    address: Seq<char>,
    body: Seq<u8>,
    elements: Seq<Seq<char>>,
    info: TokenInfoView,
)
    requires
        json_elements(body) == Some(Some(elements)),
        elements.len() >= 1,
        decoded(elements[0]) == Ok::<TokenInfoView, DecodeError>(info),
    ensures
        first_step(api_key, false, address) == StepView::Call(
            provider_call(api_key, address, false),
        ),
        after_call(provider_call(api_key, address, false), Ok(body)) == StepView::Done(Ok(info)),
{
}

/// With a cache, a miss leads to the provider, and a response whose first
/// element holds a token record is written to the cache before the lookup
/// ends with that record: under the token's address, as the text of that
/// first element, and for exactly 3600 seconds. The lookup ends with the
/// record whether or not the cache took it.
pub proof fn first_object_is_cached_for_an_hour(
    api_key: Seq<char>,
    address: Seq<char>,
    body: Seq<u8>,
    elements: Seq<Seq<char>>,
    info: TokenInfoView,
    stored: bool,
)
    requires
        json_elements(body) == Some(Some(elements)),
        elements.len() >= 1,
        decoded(elements[0]) == Ok::<TokenInfoView, DecodeError>(info),
    ensures
        after_lookup(cache_lookup(api_key, address), None) == StepView::Call(
            provider_call(api_key, address, true),
        ),
        after_call(provider_call(api_key, address, true), Ok(body)) == StepView::Write(
            cache_write(address, elements[0], info),
        ),
        cache_write(address, elements[0], info).key == address,
        cache_write(address, elements[0], info).value == elements[0],
        cache_write(address, elements[0], info).ttl == 3600,
        after_write(cache_write(address, elements[0], info), stored) == StepView::Done(Ok(info)),
{
}

/// A response that is an empty array ends the lookup with
/// [`FetchErrorView::NotFound`], with or without a cache.
pub proof fn empty_response_is_not_found(
    api_key: Seq<char>,
    address: Seq<char>,
    cached: bool,
    body: Seq<u8>,
)
    requires
        json_elements(body) == Some(Some(Seq::<Seq<char>>::empty())),
    ensures
        after_call(provider_call(api_key, address, cached), Ok(body)) == StepView::Done(
            Err(FetchErrorView::NotFound),
        ),
{
}

/// A store that cannot be reached, or that fails, is a cache miss and no
/// error: the lookup goes on to the provider.
pub proof fn failing_store_is_a_miss(api_key: Seq<char>, address: Seq<char>)
    ensures
        entry_of(ReadOutcomeView::Unreachable) is None,
        entry_of(ReadOutcomeView::Failed) is None,
        after_lookup(cache_lookup(api_key, address), entry_of(ReadOutcomeView::Unreachable))
            == StepView::Call(provider_call(api_key, address, true)),
        after_lookup(cache_lookup(api_key, address), entry_of(ReadOutcomeView::Failed))
            == StepView::Call(provider_call(api_key, address, true)),
{
}

/// A write that the store did not take, for whatever reason, does not
/// change how the lookup ends.
pub proof fn failing_write_is_passed_over(write: CacheWriteView, outcome: WriteOutcome)
    ensures
        after_write(write, stored_of(outcome)) == StepView::Done(Ok(write.info)),
        outcome !is Answered ==> !stored_of(outcome),
{
}

/// A lookup only moves forward: the cache's answer leads to the provider or
/// to the end, the provider's answer leads to the cache write or to the end,
/// and the cache's second answer leads to the end. So a lookup asks the
/// cache at most once, calls the provider at most once, writes at most once,
/// and ends after at most three answers.
pub proof fn lookup_moves_forward(
    lookup: CacheLookupView,
    entry: Option<Seq<char>>,
    call: ProviderCallView,
    response: Result<Seq<u8>, Seq<char>>,
    write: CacheWriteView,
    stored: bool,
)
    ensures
        after_lookup(lookup, entry) is Call || after_lookup(lookup, entry) is Done,
        after_call(call, response) is Write || after_call(call, response) is Done,
        after_write(write, stored) is Done,
{
}

/// Without a cache, a lookup is one call of the provider and nothing else:
/// it starts there, and the provider's answer ends it.
pub proof fn lookup_without_cache_is_one_call(
    api_key: Seq<char>,
    address: Seq<char>,
    response: Result<Seq<u8>, Seq<char>>,
)
    ensures
        first_step(api_key, false, address) == StepView::Call(
            provider_call(api_key, address, false),
        ),
        after_call(provider_call(api_key, address, false), response) is Done,
{
}

/// A failed call of the provider ends the lookup with the transport's
/// account of the failure; nothing is written to the cache.
pub proof fn failed_call_ends_the_lookup(call: ProviderCallView, account: Seq<char>)
    ensures
        after_call(call, Err(account)) == StepView::Done(Err(FetchErrorView::Transport(account))),
{
}

/// A command line of the program's name and one argument starts a run on
/// that argument, given an API key.
pub proof fn single_argument_is_the_address(
    program: Seq<char>,
    address: Seq<char>,
    api_key: Seq<char>,
    cache_url: Option<Seq<char>>,
)
    ensures
        settings_of(seq![program, address], Some(api_key), cache_url) == Ok::<
            SettingsView,
            StartupError,
        >(SettingsView { token_address: address, api_key, cache_url }),
{
}

/// A command line that holds the program's name alone starts no run: it
/// is answered with the usage line, whatever the environment holds.
pub proof fn bare_command_line_is_a_usage_error(
    program: Seq<char>,
    api_key: Option<Seq<char>>,
    cache_url: Option<Seq<char>>,
)
    ensures
        settings_of(seq![program], api_key, cache_url) == Err::<SettingsView, StartupError>(
            StartupError::Usage,
        ),
{
}

/// Without an API key no run starts, whether or not a cache is configured:
/// there are no settings to make a client or a cache adapter from.
pub proof fn missing_api_key_starts_no_run(args: Seq<Seq<char>>, cache_url: Option<Seq<char>>)
    ensures
        settings_of(args, None, cache_url) is Err,
        args.len() == 2 ==> settings_of(args, None, cache_url) == Err::<
            SettingsView,
            StartupError,
        >(StartupError::MissingApiKey),
{
}

/// The members under which an object holds the record `info`.
pub open spec fn members_of(info: TokenInfoView) -> Seq<(Seq<char>, Option<Seq<char>>)> {
    seq![
        (Field::Name.key(), Some(info.name)),
        (Field::Symbol.key(), Some(info.symbol)),
        (Field::Decimals.key(), Some(info.decimals)),
    ]
}

/// The items under which an array holds the record `info`.
pub open spec fn items_of(info: TokenInfoView) -> Seq<Option<Seq<char>>> {
    seq![Some(info.name), Some(info.symbol), Some(info.decimals)]
}

/// A record written out as the members of an object, or as the items of an
/// array, is read back field for field.
///
/// This is stated of documents. That `serde_json` reads out of a text the
/// document that it printed there is not stated here.
pub proof fn written_record_reads_back(info: TokenInfoView)
    ensures
        record(DocumentView::Object(members_of(info))) == Ok::<TokenInfoView, DecodeError>(info),
        record(DocumentView::Array(items_of(info))) == Ok::<TokenInfoView, DecodeError>(info),
{
    let members = members_of(info);
    reveal_strlit("name");
    reveal_strlit("symbol");
    reveal_strlit("decimals");
    assert(Field::Name.key().len() == 4);
    assert(Field::Symbol.key().len() == 6);
    assert(Field::Decimals.key().len() == 8);
    reveal_with_fuel(member, 4);
    assert(members.drop_first()[0] == members[1]);
    assert(members.drop_first().drop_first()[0] == members[2]);
    assert(member(members, Field::Name.key()) == Some(Some(info.name)));
    assert(member(members, Field::Symbol.key()) == Some(Some(info.symbol)));
    assert(member(members, Field::Decimals.key()) == Some(Some(info.decimals)));
}

} // verus!
