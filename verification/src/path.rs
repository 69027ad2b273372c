//! Unix path text: its components as `Path::components` reads them, and
//! the path that pushing components one by one onto an empty path builds.
use vstd::prelude::*;

use crate::text::{chars_of, split_chars, split_seq};

verus! {

/// One component of a Unix path.
#[derive(Debug, Clone, PartialEq, Eq)]
pub enum PathComponent {
    /// The leading `/` of an absolute path.
    RootDir,
    /// A leading `.` of a relative path.
    CurDir,
    /// A `..` segment.
    ParentDir,
    /// Any other non-empty segment.
    Normal(Vec<char>),
}

/// The mathematical form of a [`PathComponent`].
pub enum CompV {
    Root,
    Cur,
    Parent,
    Normal(Seq<char>),
}

impl View for PathComponent {
    type V = CompV;

    open spec fn view(&self) -> CompV {
        match self {
            PathComponent::RootDir => CompV::Root,
            PathComponent::CurDir => CompV::Cur,
            PathComponent::ParentDir => CompV::Parent,
            PathComponent::Normal(s) => CompV::Normal(s@),
        }
    }
}

/// The views of a component vector.
pub open spec fn comps_view(v: Seq<PathComponent>) -> Seq<CompV> {
    v.map_values(|c: PathComponent| c@)
}

/// Whether a path is absolute: on Unix, whether it starts with `/`.
pub open spec fn is_absolute(s: Seq<char>) -> bool {
    s.len() > 0 && s[0] == '/'
}

/// What one `/`-separated segment contributes: nothing for an empty
/// segment or `.`, `ParentDir` for `..`, else the segment itself.
pub open spec fn seg_comp(seg: Seq<char>) -> Seq<CompV> {
    if seg.len() == 0 || seg == seq!['.'] {
        Seq::empty()
    } else if seg == seq!['.', '.'] {
        seq![CompV::Parent]
    } else {
        seq![CompV::Normal(seg)]
    }
}

/// The components contributed by a run of segments.
pub open spec fn norm_segs(segs: Seq<Seq<char>>) -> Seq<CompV>
    decreases segs.len(),
{
    if segs.len() == 0 {
        Seq::empty()
    } else {
        norm_segs(segs.drop_last()) + seg_comp(segs.last())
    }
}

/// The component that a path's start contributes: `RootDir` for a
/// leading `/`, `CurDir` for a leading `.` segment, else none.
pub open spec fn lead_comp(s: Seq<char>) -> Seq<CompV> {
    if is_absolute(s) {
        seq![CompV::Root]
    } else if s == seq!['.'] || (s.len() >= 2 && s[0] == '.' && s[1] == '/') {
        seq![CompV::Cur]
    } else {
        Seq::empty()
    }
}

/// The components of a Unix path, as `Path::components` yields them:
/// repeated separators and interior `.` segments are normalised away, a
/// trailing separator adds nothing.
pub open spec fn path_components(s: Seq<char>) -> Seq<CompV> {
    lead_comp(s) + norm_segs(split_seq(s, '/'))
}

/// The text of one component.
pub open spec fn comp_text(c: CompV) -> Seq<char> {
    match c {
        CompV::Root => seq!['/'],
        CompV::Cur => seq!['.'],
        CompV::Parent => seq!['.', '.'],
        CompV::Normal(s) => s,
    }
}

/// `PathBuf::push` on Unix: an absolute segment replaces the path;
/// otherwise a separator is added unless the path is empty or already
/// ends with one.
pub open spec fn push_path(base: Seq<char>, seg: Seq<char>) -> Seq<char> {
    if is_absolute(seg) {
        seg
    } else if base.len() == 0 || base.last() == '/' {
        base + seg
    } else {
        base.push('/') + seg
    }
}

/// The path that pushing each component onto an empty path builds.
pub open spec fn render(cs: Seq<CompV>) -> Seq<char>
    decreases cs.len(),
{
    if cs.len() == 0 {
        Seq::empty()
    } else {
        push_path(render(cs.drop_last()), comp_text(cs.last()))
    }
}

/// `cs` without its `CurDir` components.
pub open spec fn drop_cur(cs: Seq<CompV>) -> Seq<CompV>
    decreases cs.len(),
{
    if cs.len() == 0 {
        Seq::empty()
    } else if cs.last() is Cur {
        drop_cur(cs.drop_last())
    } else {
        drop_cur(cs.drop_last()).push(cs.last())
    }
}

/// A copy of a component.
pub fn copy_component(c: &PathComponent) -> (r: PathComponent)
    ensures
        r@ == c@,
{
    match c {
        PathComponent::RootDir => PathComponent::RootDir,
        PathComponent::CurDir => PathComponent::CurDir,
        PathComponent::ParentDir => PathComponent::ParentDir,
        PathComponent::Normal(s) => PathComponent::Normal(s.clone()),
    }
}

/// The contribution of one segment (executable form of [`seg_comp`]).
fn seg_component(seg: Vec<char>) -> (r: Option<PathComponent>)
    ensures
        r is None ==> seg_comp(seg@) == Seq::<CompV>::empty(),
        r matches Some(c) ==> seg_comp(seg@) == seq![c@],
{
    if seg.len() == 0 {
        None
    } else if seg.len() == 1 && seg[0] == '.' {
        proof {
            assert(seg@ =~= seq!['.']);
        }
        None
    } else if seg.len() == 2 && seg[0] == '.' && seg[1] == '.' {
        proof {
            assert(seg@ =~= seq!['.', '.']);
        }
        Some(PathComponent::ParentDir)
    } else {
        proof {
            assert(seg@ != seq!['.']) by {
                if seg@ == seq!['.'] {
                    assert(seg@.len() == 1);
                }
            }
            assert(seg@ != seq!['.', '.']) by {
                if seg@ == seq!['.', '.'] {
                    assert(seg@.len() == 2 && seg@[0] == '.' && seg@[1] == '.');
                }
            }
        }
        Some(PathComponent::Normal(seg))
    }
}

/// The components of `s` (executable form of [`path_components`]).
pub fn components_of(s: &str) -> (r: Vec<PathComponent>)
    ensures
        comps_view(r@) == path_components(s@),
{
    let v = chars_of(s);
    let mut out: Vec<PathComponent> = Vec::new();
    if v.len() > 0 && v[0] == '/' {
        out.push(PathComponent::RootDir);
    } else if (v.len() == 1 && v[0] == '.') || (v.len() >= 2 && v[0] == '.' && v[1] == '/') {
        out.push(PathComponent::CurDir);
    }
    proof {
        if v@ == seq!['.'] {
            assert(v@.len() == 1 && v@[0] == '.');
        }
        if v.len() == 1 && v[0] == '.' {
            assert(v@ =~= seq!['.']);
        }
        assert(comps_view(out@) =~= lead_comp(s@));
    }
    let segs = split_chars(&v, '/');
    let ghost segv = segs@.map_values(|l: Vec<char>| l@);
    let ghost lead = comps_view(out@);
    let mut i: usize = 0;
    proof {
        assert(segv.take(0) =~= Seq::<Seq<char>>::empty());
        assert(lead + norm_segs(segv.take(0)) =~= lead);
    }
    while i < segs.len()
        invariant
            i <= segs.len(),
            segv == segs@.map_values(|l: Vec<char>| l@),
            segv == split_seq(s@, '/'),
            lead == lead_comp(s@),
            comps_view(out@) == lead + norm_segs(segv.take(i as int)),
        decreases segs.len() - i,
    {
        let seg = segs[i].clone();
        let c = seg_component(seg);
        proof {
            assert(segv.take(i + 1).drop_last() =~= segv.take(i as int));
            assert(segv.take(i + 1).last() == segv[i as int]);
            assert(seg@ == segv[i as int]);
        }
        match c {
            Some(comp) => {
                let ghost before = out@;
                out.push(comp);
                proof {
                    assert(comps_view(out@) =~= comps_view(before).push(comp@));
                }
            },
            None => {},
        }
        proof {
            assert(lead + norm_segs(segv.take(i + 1)) =~= lead + norm_segs(segv.take(i as int))
                + seg_comp(segv[i as int]));
        }
        i = i + 1;
    }
    proof {
        assert(segv.take(segs.len() as int) =~= segv);
    }
    out
}

/// Appends one path segment to `base` as `PathBuf::push` does.
pub fn push_segment(base: &mut Vec<char>, seg: &Vec<char>)
    ensures
        final(base)@ == push_path(old(base)@, seg@),
{
    if seg.len() > 0 && seg[0] == '/' {
        *base = seg.clone();
    } else {
        if base.len() > 0 && base[base.len() - 1] != '/' {
            base.push('/');
        }
        let mut i: usize = 0;
        let ghost start = base@;
        while i < seg.len()
            invariant
                i <= seg.len(),
                base@ == start + seg@.subrange(0, i as int),
            decreases seg.len() - i,
        {
            proof {
                assert(seg@.subrange(0, i + 1) == seg@.subrange(0, i as int).push(seg@[i as int]));
            }
            base.push(seg[i]);
            i = i + 1;
        }
        proof {
            assert(seg@.subrange(0, seg.len() as int) =~= seg@);
        }
    }
}

/// The text of one component (executable form of [`comp_text`]).
fn component_text(c: &PathComponent) -> (r: Vec<char>)
    ensures
        r@ == comp_text(c@),
{
    match c {
        PathComponent::RootDir => {
            let r = vec!['/'];
            proof {
                assert(r@ =~= seq!['/']);
            }
            r
        },
        PathComponent::CurDir => {
            let r = vec!['.'];
            proof {
                assert(r@ =~= seq!['.']);
            }
            r
        },
        PathComponent::ParentDir => {
            let r = vec!['.', '.'];
            proof {
                assert(r@ =~= seq!['.', '.']);
            }
            r
        },
        PathComponent::Normal(s) => s.clone(),
    }
}

/// The path built by pushing `cs` onto an empty path (executable form of
/// [`render`]).
pub fn render_components(cs: &Vec<PathComponent>) -> (r: Vec<char>)
    ensures
        r@ == render(comps_view(cs@)),
{
    let mut out: Vec<char> = Vec::new();
    let mut i: usize = 0;
    while i < cs.len()
        invariant
            i <= cs.len(),
            out@ == render(comps_view(cs@).take(i as int)),
        decreases cs.len() - i,
    {
        let t = component_text(&cs[i]);
        proof {
            let cv = comps_view(cs@);
            assert(cv.take(i + 1).drop_last() =~= cv.take(i as int));
            assert(cv.take(i + 1).last() == cs@[i as int]@);
        }
        push_segment(&mut out, &t);
        i = i + 1;
    }
    proof {
        assert(comps_view(cs@).take(cs.len() as int) =~= comps_view(cs@));
    }
    out
}

/// `cs` without its `CurDir` components (executable form of [`drop_cur`]).
pub fn without_cur(cs: &Vec<PathComponent>) -> (r: Vec<PathComponent>)
    ensures
        comps_view(r@) == drop_cur(comps_view(cs@)),
{
    let mut out: Vec<PathComponent> = Vec::new();
    let mut i: usize = 0;
    while i < cs.len()
        invariant
            i <= cs.len(),
            comps_view(out@) == drop_cur(comps_view(cs@).take(i as int)),
        decreases cs.len() - i,
    {
        proof {
            let cv = comps_view(cs@);
            assert(cv.take(i + 1).drop_last() =~= cv.take(i as int));
            assert(cv.take(i + 1).last() == cs@[i as int]@);
        }
        match &cs[i] {
            PathComponent::CurDir => {},
            other => {
                let ghost before = out@;
                out.push(copy_component(other));
                proof {
                    assert(comps_view(out@) =~= comps_view(before).push(cs@[i as int]@));
                }
            },
        }
        i = i + 1;
    }
    proof {
        assert(comps_view(cs@).take(cs.len() as int) =~= comps_view(cs@));
    }
    out
}

} // verus!
