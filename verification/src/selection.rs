//! The filter selections of the page: which options of the filter lists are
//! chosen, and what the stored filter settings choose.
use vstd::prelude::*;
use crate::sql_filter::{spec_texts, FilterValue};
use crate::text::{chars_eq, chars_of};

verus! {

/// The values of the chosen options, in list order.
pub open spec fn spec_chosen(options: Seq<(String, bool)>) -> Seq<Seq<char>>
    decreases options.len(),
{
    if options.len() == 0 {
        Seq::<Seq<char>>::empty()
    } else {
        let pre = spec_chosen(options.drop_last());
        if options.last().1 {
            pre.push(options.last().0@)
        } else {
            pre
        }
    }
}

/// The characters of each string.
pub open spec fn texts_view(v: Seq<String>) -> Seq<Seq<char>> {
    v.map_values(|s: String| s@)
}

/// The values of the chosen options of a list, each option given as its value
/// and whether it is chosen.
pub fn selected_values(options: &Vec<(String, bool)>) -> (res: Vec<String>)
    ensures
        texts_view(res@) == spec_chosen(options@),
{
    let mut out: Vec<String> = Vec::new();
    let n = options.len();
    assert(options@.take(0) =~= Seq::<(String, bool)>::empty());
    for i in 0..n
        invariant
            n == options@.len(),
            texts_view(out@) == spec_chosen(options@.take(i as int)),
    {
        assert(options@.take(i + 1).drop_last() =~= options@.take(i as int));
        assert(options@.take(i + 1).last() == options@[i as int]);
        if options[i].1 {
            let ghost o = out@;
            out.push(options[i].0.clone());
            assert(texts_view(out@) =~= texts_view(o).push(options@[i as int].0@));
        }
    }
    assert(options@.take(n as int) =~= options@);
    out
}

/// Whether the option with each value is to be chosen: exactly when the value
/// is among the stored choices.
pub fn option_choices(option_values: &Vec<String>, chosen: &Vec<String>) -> (res: Vec<bool>)
    ensures
        res@.len() == option_values@.len(),
        forall|i: int| 0 <= i < res@.len() ==> #[trigger] res@[i] == texts_view(chosen@).contains(
            option_values@[i]@,
        ),
{
    let mut out: Vec<bool> = Vec::new();
    for i in 0..option_values.len()
        invariant
            out@.len() == i,
            forall|k: int| 0 <= k < i ==> #[trigger] out@[k] == texts_view(chosen@).contains(
                option_values@[k]@,
            ),
    {
        let v = chars_of(option_values[i].as_str());
        let mut found = false;
        let m = chosen.len();
        for j in 0..m
            invariant
                m == chosen@.len(),
                v@ == option_values@[i as int]@,
                found == exists|k: int| 0 <= k < j && chosen@[k]@ == v@,
        {
            let c = chars_of(chosen[j].as_str());
            if chars_eq(c.as_slice(), v.as_slice()) {
                found = true;
            }
        }
        proof {
            if found {
                let k = choose|k: int| 0 <= k < m && chosen@[k]@ == v@;
                assert(texts_view(chosen@)[k] == v@);
            }
            if texts_view(chosen@).contains(v@) {
                let k = choose|k: int| 0 <= k < texts_view(chosen@).len() && texts_view(chosen@)[k] == v@;
                assert(chosen@[k]@ == v@);
            }
        }
        out.push(found);
    }
    out
}

/// The values that a stored filter entry chooses: the text items of a list,
/// none for anything else.
pub fn chosen_texts(v: &FilterValue) -> (res: Vec<String>)
    ensures
        texts_view(res@) == match *v {
            FilterValue::List(items) => spec_texts(items@),
            FilterValue::Other => Seq::<Seq<char>>::empty(),
        },
{
    match v {
        FilterValue::List(items) => {
            let mut out: Vec<String> = Vec::new();
            let n = items.len();
            assert(items@.take(0) =~= Seq::<Option<String>>::empty());
            for i in 0..n
                invariant
                    n == items@.len(),
                    texts_view(out@) == spec_texts(items@.take(i as int)),
            {
                assert(items@.take(i + 1).drop_last() =~= items@.take(i as int));
                assert(items@.take(i + 1).last() == items@[i as int]);
                match &items[i] {
                    Some(s) => {
                        let ghost o = out@;
                        out.push(s.clone());
                        assert(texts_view(out@) =~= texts_view(o).push(s@));
                    },
                    None => {},
                }
            }
            assert(items@.take(n as int) =~= items@);
            out
        },
        FilterValue::Other => {
            let out: Vec<String> = Vec::new();
            assert(texts_view(out@) =~= Seq::<Seq<char>>::empty());
            out
        },
    }
}

/// The cover photos of the trips that the photo album lacks, in trip order:
/// each text path of `cover_photos` that is not among the text paths of
/// `album_paths` (items that are not text count for nothing).
pub open spec fn spec_missing(cover_photos: Seq<Seq<char>>, album: Seq<Seq<char>>) -> Seq<Seq<char>>
    decreases cover_photos.len(),
{
    if cover_photos.len() == 0 {
        Seq::<Seq<char>>::empty()
    } else {
        let pre = spec_missing(cover_photos.drop_last(), album);
        if album.contains(cover_photos.last()) {
            pre
        } else {
            pre.push(cover_photos.last())
        }
    }
}

/// The values of the chosen options, in the order of the options: each option
/// that is chosen gives its value, each other option nothing.
pub proof fn law_chosen_options_in_order(options: Seq<(String, bool)>)
    ensures
        spec_chosen(options) == options.filter_map(
            |o: (String, bool)| if o.1 { Some(o.0@) } else { None::<Seq<char>> },
        ),
    decreases options.len(),
{
    if options.len() > 0 {
        law_chosen_options_in_order(options.drop_last());
        let pre = spec_chosen(options.drop_last());
        assert(pre.push(options.last().0@) =~= pre + seq![options.last().0@]);
    }
}

/// The missing cover photos are the cover photos that the album lacks, in
/// trip order: each one not in the album is listed, each one in it is not.
pub proof fn law_missing_are_those_not_in_album(cover_photos: Seq<Seq<char>>, album: Seq<Seq<char>>)
    ensures
        spec_missing(cover_photos, album) == cover_photos.filter_map(
            |c: Seq<char>| if album.contains(c) { None::<Seq<char>> } else { Some(c) },
        ),
    decreases cover_photos.len(),
{
    if cover_photos.len() > 0 {
        law_missing_are_those_not_in_album(cover_photos.drop_last(), album);
        let pre = spec_missing(cover_photos.drop_last(), album);
        assert(pre.push(cover_photos.last()) =~= pre + seq![cover_photos.last()]);
    }
}

/// The cover photo paths that the album lacks.
pub fn missing_cover_photos(album_paths: &Vec<Option<String>>, cover_photos: &Vec<Option<String>>) -> (res: Vec<String>)
    ensures
        texts_view(res@) == spec_missing(spec_texts(cover_photos@), spec_texts(album_paths@)),
{
    let album = chosen_texts(&FilterValue::List(album_paths.clone()));
    let covers = chosen_texts(&FilterValue::List(cover_photos.clone()));
    let ghost av = texts_view(album@);
    let ghost cv = texts_view(covers@);
    let mut out: Vec<String> = Vec::new();
    let n = covers.len();
    assert(cv.take(0) =~= Seq::<Seq<char>>::empty());
    for i in 0..n
        invariant
            n == covers@.len(),
            cv == texts_view(covers@),
            av == texts_view(album@),
            texts_view(out@) == spec_missing(cv.take(i as int), av),
    {
        assert(cv.take(i + 1).drop_last() =~= cv.take(i as int));
        assert(cv.take(i + 1).last() == covers@[i as int]@);
        let c = chars_of(covers[i].as_str());
        let mut found = false;
        let m = album.len();
        for j in 0..m
            invariant
                m == album@.len(),
                av == texts_view(album@),
                c@ == covers@[i as int]@,
                found == exists|k: int| 0 <= k < j && album@[k]@ == c@,
        {
            let a = chars_of(album[j].as_str());
            if chars_eq(a.as_slice(), c.as_slice()) {
                found = true;
            }
        }
        proof {
            if found {
                let k = choose|k: int| 0 <= k < m && album@[k]@ == c@;
                assert(av[k] == c@);
            }
            if av.contains(c@) {
                let k = choose|k: int| 0 <= k < av.len() && av[k] == c@;
                assert(album@[k]@ == c@);
            }
        }
        if !found {
            let ghost o = out@;
            out.push(covers[i].clone());
            assert(texts_view(out@) =~= texts_view(o).push(c@));
        }
    }
    assert(cv.take(n as int) =~= cv);
    out
}

} // verus!
