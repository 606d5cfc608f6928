//! What is published for a message: the station fields, the weather fields that the
//! configuration lets through under their configured names, and the author key.

use vstd::prelude::*;
use crate::config::{strings_view, ArgsState};
use crate::station::{station_args, AisStationData};
use crate::table::StringTable;
use crate::weather::{weather_args, AisType8Dac200Fid31};

verus! {

/// Whether a field is published: every field is where the list is empty.
pub open spec fn is_published(allow_list: Seq<Seq<char>>, name: Seq<char>) -> bool {
    allow_list.len() == 0 || allow_list.contains(name)
}

/// The fields that are published, in their order.
pub open spec fn filter_fields(fields: Seq<(Seq<char>, Seq<char>)>, allow_list: Seq<Seq<char>>) -> Seq<
    (Seq<char>, Seq<char>),
>
    decreases fields.len(),
{
    if fields.len() == 0 {
        seq![]
    } else {
        let rest = filter_fields(fields.drop_last(), allow_list);
        if is_published(allow_list, fields.last().0) {
            rest.push(fields.last())
        } else {
            rest
        }
    }
}

/// The name a field is published under.
pub open spec fn renamed(renames: Map<Seq<char>, Seq<char>>, name: Seq<char>) -> Seq<char> {
    if renames.contains_key(name) {
        renames[name]
    } else {
        name
    }
}

/// The fields under their published names, values and order kept.
pub open spec fn rename_fields(fields: Seq<(Seq<char>, Seq<char>)>, renames: Map<Seq<char>, Seq<char>>) -> Seq<
    (Seq<char>, Seq<char>),
> {
    fields.map_values(|p: (Seq<char>, Seq<char>)| (renamed(renames, p.0), p.1))
}

/// The query of a submission: station fields, then the published weather fields,
/// filtered first and renamed after, then the author key.
pub open spec fn query_args(station: AisStationData, weather: AisType8Dac200Fid31, args: ArgsState) -> Seq<
    (Seq<char>, Seq<char>),
> {
    station_args(station, args.mmsi_lookup@) + rename_fields(
        filter_fields(weather_args(weather), strings_view(args.publish_fields@)),
        args.rename_fields@,
    ) + seq![("author"@, args.author_key@)]
}

fn is_listed(list: &Vec<String>, name: &str) -> (r: bool)
    ensures
        r == strings_view(list@).contains(name@),
{
    let n = name.to_owned();
    let mut i: usize = 0;
    while i < list.len()
        invariant
            i <= list@.len(),
            n@ == name@,
            forall|j: int| 0 <= j < i ==> (#[trigger] list@[j])@ != name@,
        decreases list@.len() - i,
    {
        if list[i] == n {
            assert(strings_view(list@)[i as int] == name@);
            return true;
        }
        i = i + 1;
    }
    assert forall|j: int| 0 <= j < strings_view(list@).len() implies strings_view(list@)[j] != name@ by {
        assert(strings_view(list@)[j] == list@[j]@);
    }
    false
}

/// The weather fields that the configuration publishes, in their order.
pub fn build_and_filter_weather_data(weather: &AisType8Dac200Fid31, args: &ArgsState) -> (r: Vec<
    (String, String),
>)
    ensures
        r.deep_view() == filter_fields(weather_args(*weather), strings_view(args.publish_fields@)),
{
    let weather_query = weather.as_query_arguments();
    let ghost fields = weather_query.deep_view();
    let ghost allow = strings_view(args.publish_fields@);
    let keep_all = args.publish_fields.len() == 0;
    let mut r: Vec<(String, String)> = Vec::new();
    let mut i: usize = 0;
    while i < weather_query.len()
        invariant
            i <= weather_query@.len(),
            fields == weather_query.deep_view(),
            allow == strings_view(args.publish_fields@),
            keep_all == (allow.len() == 0),
            r.deep_view() == filter_fields(fields.take(i as int), allow),
        decreases weather_query@.len() - i,
    {
        let (key, value) = &weather_query[i];
        assert(fields.take(i + 1).drop_last() =~= fields.take(i as int));
        assert(fields[i as int] == (key@, value@));
        if keep_all || is_listed(&args.publish_fields, key) {
            r.push((String::from_str(*key), value.clone()));
            assert(r.deep_view() =~= filter_fields(fields.take(i as int), allow).push(fields[i as int]));
        }
        i = i + 1;
    }
    assert(fields.take(i as int) =~= fields);
    r
}

/// The fields under their configured names, values and order kept. Where two fields
/// end up under one name both are kept, in their order.
pub fn rename_weather_keys(weather_query: Vec<(String, String)>, renames: &StringTable) -> (r: Vec<
    (String, String),
>)
    ensures
        r.deep_view() == rename_fields(weather_query.deep_view(), renames@),
{
    let ghost fields = weather_query.deep_view();
    let mut r: Vec<(String, String)> = Vec::new();
    let mut i: usize = 0;
    while i < weather_query.len()
        invariant
            i <= weather_query@.len(),
            fields == weather_query.deep_view(),
            r.deep_view() == rename_fields(fields.take(i as int), renames@),
        decreases weather_query@.len() - i,
    {
        let (old_name, value) = &weather_query[i];
        let new_name = match renames.get(old_name.as_str()) {
            Some(s) => s.clone(),
            None => old_name.clone(),
        };
        assert(fields[i as int] == (old_name@, value@));
        assert(fields.take(i + 1) =~= fields.take(i as int).push(fields[i as int]));
        let ghost before = r.deep_view();
        r.push((new_name, value.clone()));
        assert(r.deep_view() =~= before.push((renamed(renames@, old_name@), value@)));
        assert(rename_fields(fields.take(i + 1), renames@) =~= rename_fields(fields.take(i as int), renames@).push(
            (renamed(renames@, old_name@), value@),
        ));
        i = i + 1;
    }
    assert(fields.take(i as int) =~= fields);
    r
}

/// The query of the submission for a message.
pub fn build_query_args(station: &AisStationData, weather: &AisType8Dac200Fid31, args: &ArgsState) -> (r: Vec<
    (String, String),
>)
    requires
        station.rxtime.wf(),
    ensures
        r.deep_view() == query_args(*station, *weather, *args),
{
    let station_query = station.as_query_arguments(&args.mmsi_lookup);
    let weather_query = build_and_filter_weather_data(weather, args);
    let weather_query = rename_weather_keys(weather_query, &args.rename_fields);
    let ghost s = station_query.deep_view();
    let ghost w = weather_query.deep_view();
    let mut out: Vec<(String, String)> = Vec::new();
    let mut i: usize = 0;
    while i < station_query.len()
        invariant
            i <= station_query@.len(),
            s == station_query.deep_view(),
            out.deep_view() == s.take(i as int),
        decreases station_query@.len() - i,
    {
        let (k, v) = &station_query[i];
        assert(s[i as int] == (k@, v@));
        let ghost before = out.deep_view();
        out.push((String::from_str(*k), v.clone()));
        assert(out.deep_view() =~= before.push(s[i as int]));
        assert(s.take(i + 1) =~= s.take(i as int).push(s[i as int]));
        i = i + 1;
    }
    assert(s.take(i as int) =~= s);
    let mut j: usize = 0;
    while j < weather_query.len()
        invariant
            j <= weather_query@.len(),
            w == weather_query.deep_view(),
            out.deep_view() == s + w.take(j as int),
        decreases weather_query@.len() - j,
    {
        let (k, v) = &weather_query[j];
        assert(w[j as int] == (k@, v@));
        let ghost before = out.deep_view();
        out.push((k.clone(), v.clone()));
        assert(out.deep_view() =~= before.push(w[j as int]));
        assert(s + w.take(j + 1) =~= (s + w.take(j as int)).push(w[j as int]));
        j = j + 1;
    }
    assert(w.take(j as int) =~= w);
    out.push((String::from_str("author"), args.author_key.clone()));
    assert(out.deep_view() =~= query_args(*station, *weather, *args));
    out
}

/// The ERDDAP endpoint that inserts into the dataset at `url`.
pub fn insert_url(url: &str) -> (r: String)
    ensures
        r@ == url@ + ".insert"@,
{
    let mut r = String::from_str(url);
    r.append(".insert");
    r
}

/// With an empty allow-list every field is published, in its order, under its own
/// name unless a rename is configured for it.
pub proof fn lemma_empty_allow_list_publishes_all(
    fields: Seq<(Seq<char>, Seq<char>)>,
    renames: Map<Seq<char>, Seq<char>>,
)
    ensures
        filter_fields(fields, Seq::empty()) == fields,
        rename_fields(filter_fields(fields, Seq::empty()), renames).len() == fields.len(),
        forall|i: int|
            0 <= i < fields.len() ==> (#[trigger] rename_fields(filter_fields(fields, Seq::empty()), renames)[i]).1
                == fields[i].1,
        forall|i: int|
            0 <= i < fields.len() && !renames.contains_key(fields[i].0) ==> (
            #[trigger] rename_fields(filter_fields(fields, Seq::empty()), renames)[i]).0 == fields[i].0,
    decreases fields.len(),
{
    if fields.len() > 0 {
        lemma_empty_allow_list_publishes_all(fields.drop_last(), renames);
        assert(fields.drop_last().push(fields.last()) =~= fields);
    }
}

/// Every field filtering keeps is a field of the input whose name is published.
pub proof fn lemma_filter_keeps_published(fields: Seq<(Seq<char>, Seq<char>)>, allow_list: Seq<Seq<char>>)
    ensures
        forall|i: int|
            0 <= i < filter_fields(fields, allow_list).len() ==> is_published(
                allow_list,
                (#[trigger] filter_fields(fields, allow_list)[i]).0,
            ) && fields.contains(filter_fields(fields, allow_list)[i]),
    decreases fields.len(),
{
    if fields.len() > 0 {
        let rest = fields.drop_last();
        lemma_filter_keeps_published(rest, allow_list);
        let f = filter_fields(fields, allow_list);
        assert forall|i: int| 0 <= i < f.len() implies is_published(allow_list, (#[trigger] f[i]).0)
            && fields.contains(f[i]) by {
            if i < filter_fields(rest, allow_list).len() {
                let j = choose|j: int| 0 <= j < rest.len() && rest[j] == filter_fields(rest, allow_list)[i];
                assert(fields[j] == rest[j]);
            } else {
                assert(fields[fields.len() - 1] == fields.last());
            }
        }
    }
}

} // verus!
