//! The run handler: path mapping and dispatch planning.
//!
//! A [`Handler`] carries the input and output roots.  It maps each discovered
//! input path to the mirrored output path (same position relative to the
//! input root, extension swapped to `webp`) and turns a list of discovered
//! entries into the conversion units to dispatch, skipping directories,
//! non-image files, and paths that do not lie under the input root.

use vstd::prelude::*;
use crate::classify::is_image;
use crate::classify::is_image_spec;
use crate::paths::is_under;
use crate::paths::join;
use crate::paths::join_path;
use crate::paths::rel_path_under;
use crate::paths::rel_under;
use crate::paths::with_ext;
use crate::paths::with_extension;

verus! {

/// Run-wide configuration.  The defaults of the conversion pipeline are fixed
/// elsewhere; nothing is configurable here yet.
pub struct HandlerConfig {}

impl HandlerConfig {
    pub fn new() -> HandlerConfig {
        HandlerConfig {}
    }
}

/// The input and output roots of one batch run.
pub struct Handler {
    in_dir: String,
    out_dir: String,
    #[allow(unused)]
    cfg: HandlerConfig,
}

/// One unit of conversion work: an input file and its resolved output path.
#[derive(Debug)]
pub struct ConversionUnit {
    pub input: String,
    pub output: String,
}

/// What the dispatcher decides to do with one discovered entry.
pub enum Decision {
    /// Directories are traversed, never converted.
    SkipDirectory,
    /// The file's extension is not a recognized image extension.
    SkipNotImage,
    /// The path does not lie under the input root, so no output path exists.
    SkipUnmappable,
    /// Dispatch this unit.
    Convert(ConversionUnit),
}

/// A discovered filesystem entry, as the traversal hands it over.
#[derive(Debug)]
pub struct DirEntry {
    pub path: String,
    pub is_dir: bool,
}

/// The target extension of every converted file.
pub open spec fn webp_ext() -> Seq<char> {
    seq!['w', 'e', 'b', 'p']
}

/// The mirrored output path of `p`: `out_dir` joined with `p`'s path relative
/// to `in_dir`, extension replaced by `webp`.
pub open spec fn mapped_output(in_dir: Seq<char>, out_dir: Seq<char>, p: Seq<char>) -> Seq<char> {
    with_ext(join(out_dir, rel_under(p, in_dir)), webp_ext())
}

/// An entry the dispatcher admits: a regular file with a recognized image
/// extension, lying under the input root.
pub open spec fn eligible(in_dir: Seq<char>, e: DirEntry) -> bool {
    !e.is_dir && is_image_spec(e.path@) && is_under(e.path@, in_dir)
}

/// The (input, output) view pairs of a sequence of conversion units.
pub open spec fn unit_views(s: Seq<ConversionUnit>) -> Seq<(Seq<char>, Seq<char>)> {
    s.map_values(|u: ConversionUnit| (u.input@, u.output@))
}

/// The units a run over `entries` dispatches, in traversal order: one unit
/// per eligible entry, mapping its path to the mirrored output path.
pub open spec fn planned(in_dir: Seq<char>, out_dir: Seq<char>, entries: Seq<DirEntry>) -> Seq<
    (Seq<char>, Seq<char>),
>
    decreases entries.len(),
{
    if entries.len() == 0 {
        Seq::empty()
    } else {
        let prefix = planned(in_dir, out_dir, entries.drop_last());
        let e = entries.last();
        if eligible(in_dir, e) {
            prefix.push((e.path@, mapped_output(in_dir, out_dir, e.path@)))
        } else {
            prefix
        }
    }
}

impl Handler {
    /// The input root, as a sequence of characters.
    pub closed spec fn in_dir_view(&self) -> Seq<char> {
        self.in_dir@
    }

    /// The output root, as a sequence of characters.
    pub closed spec fn out_dir_view(&self) -> Seq<char> {
        self.out_dir@
    }

    pub fn new(in_dir: &str, out_dir: &str, cfg: HandlerConfig) -> (h: Handler)
        ensures
            h.in_dir_view() == in_dir@,
            h.out_dir_view() == out_dir@,
    {
        Handler { in_dir: in_dir.to_owned(), out_dir: out_dir.to_owned(), cfg }
    }

    /// The mirrored output path of `input`: the output root joined with
    /// `input`'s path relative to the input root, extension unchanged.
    /// `None` exactly when `input` does not lie under the input root.
    pub fn get_output_path(&self, input: &str) -> (r: Option<String>)
        ensures
            (r is Some) == is_under(input@, self.in_dir_view()),
            r is Some ==> r->0@ == join(
                self.out_dir_view(),
                rel_under(input@, self.in_dir_view()),
            ),
    {
        match rel_path_under(input, self.in_dir.as_str()) {
            None => None,
            Some(rel) => Some(join_path(self.out_dir.as_str(), rel.as_str())),
        }
    }

    /// Decide what to do with one discovered entry: skip directories, skip
    /// files without a recognized image extension, skip paths outside the
    /// input root, and otherwise build the conversion unit whose output is
    /// the mirrored path with the `webp` extension.
    pub fn plan_entry(&self, path: &str, is_dir: bool) -> (d: Decision)
        ensures
            is_dir ==> d is SkipDirectory,
            !is_dir && !is_image_spec(path@) ==> d is SkipNotImage,
            !is_dir && is_image_spec(path@) && !is_under(path@, self.in_dir_view())
                ==> d is SkipUnmappable,
            !is_dir && is_image_spec(path@) && is_under(path@, self.in_dir_view()) ==> {
                &&& d is Convert
                &&& d->Convert_0.input@ == path@
                &&& d->Convert_0.output@ == mapped_output(
                    self.in_dir_view(),
                    self.out_dir_view(),
                    path@,
                )
            },
    {
        if is_dir {
            return Decision::SkipDirectory;
        }
        if !is_image(path) {
            return Decision::SkipNotImage;
        }
        match self.get_output_path(path) {
            None => Decision::SkipUnmappable,
            Some(out) => {
                proof {
                    reveal_strlit("webp");
                    assert("webp"@ =~= webp_ext());
                }
                let output = with_extension(out.as_str(), "webp");
                Decision::Convert(ConversionUnit { input: path.to_owned(), output })
            },
        }
    }

    /// Turn the discovered entries into the conversion units to dispatch:
    /// exactly the eligible entries, in order, each mapped to its mirrored
    /// output path.
    pub fn plan(&self, entries: &Vec<DirEntry>) -> (units: Vec<ConversionUnit>)
        ensures
            unit_views(units@) == planned(self.in_dir_view(), self.out_dir_view(), entries@),
    {
        let mut units: Vec<ConversionUnit> = Vec::new();
        let mut i: usize = 0;
        while i < entries.len()
            invariant
                i <= entries.len(),
                unit_views(units@) == planned(
                    self.in_dir_view(),
                    self.out_dir_view(),
                    entries@.take(i as int),
                ),
            decreases entries.len() - i,
        {
            let ghost prev = units@;
            let e = &entries[i];
            let d = self.plan_entry(e.path.as_str(), e.is_dir);
            match d {
                Decision::Convert(u) => units.push(u),
                _ => (),
            }
            proof {
                assert(entries@.take(i + 1).drop_last() =~= entries@.take(i as int));
                assert(entries@.take(i + 1).last() == entries@[i as int]);
                if eligible(self.in_dir_view(), entries@[i as int]) {
                    assert(unit_views(units@) =~= unit_views(prev).push(
                        (entries@[i as int].path@, mapped_output(
                            self.in_dir_view(),
                            self.out_dir_view(),
                            entries@[i as int].path@,
                        )),
                    ));
                }
            }
            i = i + 1;
        }
        proof {
            assert(entries@.take(entries.len() as int) =~= entries@);
        }
        units
    }
}

/// Mirroring: every planned unit comes from an eligible entry, and its output
/// path is the output root joined with the input's path relative to the input
/// root, extension replaced by `webp`.
pub proof fn lemma_plan_mirrors(
    in_dir: Seq<char>,
    out_dir: Seq<char>,
    entries: Seq<DirEntry>,
    k: int,
)
    requires
        0 <= k < planned(in_dir, out_dir, entries).len(),
    ensures
        exists|j: int|
            {
                &&& 0 <= j < entries.len()
                &&& eligible(in_dir, entries[j])
                &&& planned(in_dir, out_dir, entries)[k].0 == entries[j].path@
                &&& planned(in_dir, out_dir, entries)[k].1 == with_ext(
                    join(out_dir, rel_under(entries[j].path@, in_dir)),
                    webp_ext(),
                )
            },
    decreases entries.len(),
{
    let p = planned(in_dir, out_dir, entries);
    let prefix = planned(in_dir, out_dir, entries.drop_last());
    if k < prefix.len() {
        lemma_plan_mirrors(in_dir, out_dir, entries.drop_last(), k);
        let j = choose|j: int|
            {
                &&& 0 <= j < entries.drop_last().len()
                &&& eligible(in_dir, entries.drop_last()[j])
                &&& prefix[k].0 == entries.drop_last()[j].path@
                &&& prefix[k].1 == with_ext(
                    join(out_dir, rel_under(entries.drop_last()[j].path@, in_dir)),
                    webp_ext(),
                )
            };
        assert(entries.drop_last()[j] == entries[j]);
    } else {
        let j = entries.len() - 1;
        assert(eligible(in_dir, entries[j]));
        assert(p[k] == (entries[j].path@, mapped_output(in_dir, out_dir, entries[j].path@)));
    }
}

/// Completeness of the plan: every eligible discovered entry is dispatched —
/// its input path, paired with its mirrored output path, stands among the
/// planned units.
pub proof fn lemma_plan_complete(
    in_dir: Seq<char>,
    out_dir: Seq<char>,
    entries: Seq<DirEntry>,
    j: int,
)
    requires
        0 <= j < entries.len(),
        eligible(in_dir, entries[j]),
    ensures
        planned(in_dir, out_dir, entries).contains(
            (entries[j].path@, mapped_output(in_dir, out_dir, entries[j].path@)),
        ),
    decreases entries.len(),
{
    let p = planned(in_dir, out_dir, entries);
    let prefix = planned(in_dir, out_dir, entries.drop_last());
    if j == entries.len() - 1 {
        assert(p[p.len() - 1] == (entries[j].path@, mapped_output(in_dir, out_dir, entries[j].path@)));
    } else {
        assert(entries.drop_last()[j] == entries[j]);
        lemma_plan_complete(in_dir, out_dir, entries.drop_last(), j);
        let pair = (entries[j].path@, mapped_output(in_dir, out_dir, entries[j].path@));
        let k = choose|k: int| 0 <= k < prefix.len() && prefix[k] == pair;
        assert(p[k] == pair);
    }
}

} // verus!
