//! Values of the evaluation.

use vstd::prelude::*;
use crate::symbols::SymbolSet;
use crate::import::load::Failed;
use crate::symbols::str_eq;

verus! {

/// The zoom level of the map.
#[derive(Clone, Copy, Debug, PartialEq, Eq, Structural)]
pub enum Zoom {
    Low,
    High,
}

/// The zoom level that a symbol set names: it must consist of the single
/// symbol `:high` or `:low`.
pub open spec fn zoom_of(n: Set<Seq<char>>) -> Result<Zoom, Failed> {
    if n.len() == 1 && n.contains("high"@) {
        Ok(Zoom::High)
    } else if n.len() == 1 && n.contains("low"@) {
        Ok(Zoom::Low)
    } else {
        Err(Failed)
    }
}

impl Zoom {
    /// Reads the zoom level off a symbol set.
    pub fn from_symbols(symbols: &SymbolSet) -> (res: Result<Zoom, Failed>)
        requires
            symbols.wf(),
        ensures
            res == zoom_of(symbols@),
    {
        let single = symbols.len() == 1;
        if single && symbols.contains("high") {
            Ok(Zoom::High)
        } else if single && symbols.contains("low") {
            Ok(Zoom::Low)
        } else {
            Err(Failed)
        }
    }
}

//------------ RenderParams --------------------------------------------------

/// A parameter of the rendering that a `with` statement can set.
#[derive(Clone, Copy, Debug, PartialEq, Eq, Structural)]
pub enum Param {
    Detail,
    Layer,
    Link,
    Zoom,
    /// Accepted and ignored.
    Style,
}

/// The parameter that a target name selects, if any.
pub open spec fn param_of(target: Seq<char>) -> Option<Param> {
    if target == "detail"@ {
        Some(Param::Detail)
    } else if target == "layer"@ {
        Some(Param::Layer)
    } else if target == "link"@ {
        Some(Param::Link)
    } else if target == "zoom"@ {
        Some(Param::Zoom)
    } else if target == "style"@ {
        Some(Param::Style)
    } else {
        None
    }
}

impl Param {
    /// Selects the parameter a target name refers to; unknown names fail.
    pub fn from_target(target: &str) -> (res: Result<Param, Failed>)
        ensures
            match param_of(target@) {
                Some(p) => res == Ok::<Param, Failed>(p),
                None => res is Err,
            },
    {
        if str_eq(target, "detail") {
            Ok(Param::Detail)
        } else if str_eq(target, "layer") {
            Ok(Param::Layer)
        } else if str_eq(target, "link") {
            Ok(Param::Link)
        } else if str_eq(target, "zoom") {
            Ok(Param::Zoom)
        } else if str_eq(target, "style") {
            Ok(Param::Style)
        } else {
            Err(Failed)
        }
    }
}

/// The value given for the detail level, as far as it was evaluated.
#[derive(Clone, Debug)]
pub enum DetailArg {
    /// A number.
    Number(i64),
    /// A list whose elements were each evaluated as an 8-bit integer, if
    /// they are one.
    List(Vec<Option<u8>>),
    /// Anything else.
    Other,
}

/// Why a detail level was refused.
#[derive(Clone, Copy, Debug, PartialEq, Eq, Structural)]
pub enum DetailError {
    /// A number, or an item of the pair, that is not an 8-bit integer.
    NotByte,
    /// Neither a number nor a pair of numbers.
    NotNumberOrPair,
}

/// The value given for a parameter, evaluated as the parameter asks.
#[derive(Debug)]
pub enum ParamValue {
    Detail(DetailArg),
    /// The layer, if the value was one.
    Layer(Option<i16>),
    Link,
    /// The zoom level the symbols name.
    Zoom(Result<Zoom, Failed>),
    Style,
}

/// The parameters of rendering set in one scope.
#[derive(Clone, Debug)]
pub struct RenderParams {
    detail: Option<(u8, u8)>,
    zoom: Option<Zoom>,
    layer: Option<i16>,
}

/// The detail range, smaller bound first, that a detail value sets, or the
/// error it gives: a number or a list item that is not an 8-bit integer,
/// or neither a number nor a pair.
pub open spec fn detail_update(value: DetailArg) -> Result<(u8, u8), DetailError> {
    match value {
        DetailArg::Number(v) => if 0 <= v <= 255 {
            Ok((v as u8, v as u8))
        } else {
            Err(DetailError::NotByte)
        },
        DetailArg::List(items) => if items@.len() == 2 {
            match (items@[0], items@[1]) {
                (Some(l), Some(r)) => Ok(if l < r { (l, r) } else { (r, l) }),
                _ => Err(DetailError::NotByte),
            }
        } else {
            Err(DetailError::NotNumberOrPair)
        },
        DetailArg::Other => Err(DetailError::NotNumberOrPair),
    }
}

impl RenderParams {
    /// The detail range set in this scope.
    pub closed spec fn spec_detail(&self) -> Option<(u8, u8)> {
        self.detail
    }

    /// The zoom level set in this scope.
    pub closed spec fn spec_zoom(&self) -> Option<Zoom> {
        self.zoom
    }

    /// The layer set in this scope.
    pub closed spec fn spec_layer(&self) -> Option<i16> {
        self.layer
    }

    /// Parameters with nothing set.
    pub fn new() -> (res: Self)
        ensures
            res.spec_detail() is None,
            res.spec_zoom() is None,
            res.spec_layer() is None,
    {
        RenderParams { detail: None, zoom: None, layer: None }
    }

    /// Sets a parameter from its value.
    ///
    /// Returns the error of a refused detail level; the other parameters
    /// are set if their value could be evaluated and left as they are
    /// otherwise.
    pub fn update(&mut self, value: ParamValue) -> (res: Option<DetailError>)
        ensures
            match value {
                ParamValue::Detail(d) => {
                    &&& final(self).spec_zoom() == old(self).spec_zoom()
                    &&& final(self).spec_layer() == old(self).spec_layer()
                    &&& match detail_update(d) {
                        Ok(range) => res is None && final(self).spec_detail() == Some(range),
                        Err(e) => res == Some(e) && final(self).spec_detail() == old(self).spec_detail(),
                    }
                },
                ParamValue::Layer(l) => {
                    &&& res is None
                    &&& final(self).spec_detail() == old(self).spec_detail()
                    &&& final(self).spec_zoom() == old(self).spec_zoom()
                    &&& final(self).spec_layer() == (if l is Some { l } else { old(self).spec_layer() })
                },
                ParamValue::Zoom(z) => {
                    &&& res is None
                    &&& final(self).spec_detail() == old(self).spec_detail()
                    &&& final(self).spec_layer() == old(self).spec_layer()
                    &&& final(self).spec_zoom() == (match z {
                        Ok(z) => Some(z),
                        Err(_) => old(self).spec_zoom(),
                    })
                },
                _ => {
                    &&& res is None
                    &&& final(self).spec_detail() == old(self).spec_detail()
                    &&& final(self).spec_zoom() == old(self).spec_zoom()
                    &&& final(self).spec_layer() == old(self).spec_layer()
                },
            },
    {
        match value {
            ParamValue::Detail(d) => match self.update_detail(d) {
                Ok(()) => None,
                Err(e) => Some(e),
            },
            ParamValue::Layer(l) => {
                if let Some(l) = l {
                    self.layer = Some(l);
                }
                None
            },
            ParamValue::Zoom(z) => {
                if let Ok(z) = z {
                    self.zoom = Some(z);
                }
                None
            },
            _ => None,
        }
    }

    /// Sets the detail range from its value.
    pub fn update_detail(&mut self, value: DetailArg) -> (res: Result<(), DetailError>)
        ensures
            final(self).spec_zoom() == old(self).spec_zoom(),
            final(self).spec_layer() == old(self).spec_layer(),
            match detail_update(value) {
                Ok(range) => res is Ok && final(self).spec_detail() == Some(range),
                Err(e) => res == Err::<(), DetailError>(e) && final(self).spec_detail() == old(self).spec_detail(),
            },
    {
        match value {
            DetailArg::Number(v) => {
                if 0 <= v && v <= 255 {
                    let v = v as u8;
                    self.detail = Some((v, v));
                    Ok(())
                } else {
                    Err(DetailError::NotByte)
                }
            },
            DetailArg::List(items) => {
                if items.len() != 2 {
                    return Err(DetailError::NotNumberOrPair);
                }
                match (items[0], items[1]) {
                    (Some(left), Some(right)) => {
                        self.detail = Some(if left < right { (left, right) } else { (right, left) });
                        Ok(())
                    },
                    _ => Err(DetailError::NotByte),
                }
            },
            DetailArg::Other => Err(DetailError::NotNumberOrPair),
        }
    }

    /// The detail range of a scope: that of the innermost of the nested
    /// scopes `chain`, innermost first, that sets one.
    pub fn detail(chain: &Vec<RenderParams>) -> (res: Option<(u8, u8)>)
        ensures
            res == first_detail(chain@, 0),
    {
        let mut i: usize = 0;
        while i < chain.len()
            invariant
                i <= chain@.len(),
                first_detail(chain@, 0) == first_detail(chain@, i as int),
            decreases chain@.len() - i,
        {
            if let Some(d) = chain[i].detail {
                return Some(d);
            }
            i = i + 1;
        }
        None
    }

    /// The zoom level of a scope: that of the innermost scope that sets one.
    pub fn zoom(chain: &Vec<RenderParams>) -> (res: Option<Zoom>)
        ensures
            res == first_zoom(chain@, 0),
    {
        let mut i: usize = 0;
        while i < chain.len()
            invariant
                i <= chain@.len(),
                first_zoom(chain@, 0) == first_zoom(chain@, i as int),
            decreases chain@.len() - i,
        {
            if let Some(z) = chain[i].zoom {
                return Some(z);
            }
            i = i + 1;
        }
        None
    }

    /// The layer of a scope: that of the innermost scope that sets one, or
    /// zero.
    pub fn layer(chain: &Vec<RenderParams>) -> (res: i16)
        ensures
            res == (match first_layer(chain@, 0) {
                Some(l) => l,
                None => 0,
            }),
    {
        let mut i: usize = 0;
        while i < chain.len()
            invariant
                i <= chain@.len(),
                first_layer(chain@, 0) == first_layer(chain@, i as int),
            decreases chain@.len() - i,
        {
            if let Some(l) = chain[i].layer {
                return l;
            }
            i = i + 1;
        }
        0
    }
}

/// The first detail range set in the scopes from `i` on.
pub open spec fn first_detail(chain: Seq<RenderParams>, i: int) -> Option<(u8, u8)>
    decreases chain.len() - i,
{
    if 0 <= i < chain.len() {
        if chain[i].spec_detail() is Some {
            chain[i].spec_detail()
        } else {
            first_detail(chain, i + 1)
        }
    } else {
        None
    }
}

/// The first zoom level set in the scopes from `i` on.
pub open spec fn first_zoom(chain: Seq<RenderParams>, i: int) -> Option<Zoom>
    decreases chain.len() - i,
{
    if 0 <= i < chain.len() {
        if chain[i].spec_zoom() is Some {
            chain[i].spec_zoom()
        } else {
            first_zoom(chain, i + 1)
        }
    } else {
        None
    }
}

/// The first layer set in the scopes from `i` on.
pub open spec fn first_layer(chain: Seq<RenderParams>, i: int) -> Option<i16>
    decreases chain.len() - i,
{
    if 0 <= i < chain.len() {
        if chain[i].spec_layer() is Some {
            chain[i].spec_layer()
        } else {
            first_layer(chain, i + 1)
        }
    } else {
        None
    }
}

//------------ Laws of the render parameters ---------------------------------

/// A detail range always has its smaller bound first. A single level sets
/// the range of just that level, and a pair of levels sets the range
/// between exactly those two levels.
pub proof fn law_detail_range(value: DetailArg, v: i64, items: Vec<Option<u8>>, a: u8, b: u8)
    ensures
        detail_update(value) matches Ok((lo, hi)) ==> lo <= hi,
        0 <= v <= 255 ==> detail_update(DetailArg::Number(v)) == Ok::<(u8, u8), DetailError>((v as u8, v as u8)),
        !(0 <= v <= 255) ==> detail_update(DetailArg::Number(v)) == Err::<(u8, u8), DetailError>(DetailError::NotByte),
        (items@.len() == 2 && items@[0] == Some(a) && items@[1] == Some(b)) ==> (
            detail_update(DetailArg::List(items)) == Ok::<(u8, u8), DetailError>((a, b))
            || detail_update(DetailArg::List(items)) == Ok::<(u8, u8), DetailError>((b, a))),
        items@.len() != 2 ==> detail_update(DetailArg::List(items)) == Err::<(u8, u8), DetailError>(
            DetailError::NotNumberOrPair,
        ),
{
}

/// The parameters of the innermost scope that sets one win over those of
/// the scopes around it.
pub proof fn law_innermost_scope_wins(chain: Seq<RenderParams>, i: int)
    requires
        0 <= i < chain.len(),
        forall|k: int| 0 <= k < i ==> (#[trigger] chain[k]).spec_detail() is None,
        chain[i].spec_detail() is Some,
    ensures
        first_detail(chain, 0) == chain[i].spec_detail(),
    decreases i,
{
    lemma_first_detail_from(chain, 0, i);
}

proof fn lemma_first_detail_from(chain: Seq<RenderParams>, k: int, i: int)
    requires
        0 <= k <= i < chain.len(),
        forall|m: int| 0 <= m < i ==> (#[trigger] chain[m]).spec_detail() is None,
        chain[i].spec_detail() is Some,
    ensures
        first_detail(chain, k) == chain[i].spec_detail(),
    decreases i - k,
{
    if k < i {
        lemma_first_detail_from(chain, k + 1, i);
    }
}

/// The zoom level is the one symbol `high` or `low`; anything else is an
/// error.
pub proof fn law_zoom_symbols(n: Set<Seq<char>>)
    ensures
        (n.len() == 1 && n.contains("high"@)) ==> zoom_of(n) == Ok::<Zoom, Failed>(Zoom::High),
        (n.finite() && n.len() == 1 && n.contains("low"@)) ==> zoom_of(n) == Ok::<Zoom, Failed>(Zoom::Low),
        n.len() != 1 ==> zoom_of(n) is Err,
        (!n.contains("high"@) && !n.contains("low"@)) ==> zoom_of(n) is Err,
{
    reveal_strlit("high");
    reveal_strlit("low");
    assert("high"@.len() != "low"@.len());
    if n.finite() && n.len() == 1 && n.contains("low"@) && n.contains("high"@) {
        vstd::set::axiom_set_remove_finite(n, "low"@);
        vstd::set::axiom_set_remove_len(n, "low"@);
        n.remove("low"@).lemma_len0_is_empty();
        assert(n.remove("low"@).contains("high"@));
    }
}

/// Each render parameter has its own name: `detail`, `layer`, `link`,
/// `zoom` and `style`; any other name is none.
pub proof fn law_param_names(target: Seq<char>)
    ensures
        target == "detail"@ ==> param_of(target) == Some(Param::Detail),
        target == "layer"@ ==> param_of(target) == Some(Param::Layer),
        target == "link"@ ==> param_of(target) == Some(Param::Link),
        target == "zoom"@ ==> param_of(target) == Some(Param::Zoom),
        target == "style"@ ==> param_of(target) == Some(Param::Style),
        (target != "detail"@ && target != "layer"@ && target != "link"@ && target != "zoom"@ && target != "style"@)
            ==> param_of(target) is None,
{
    reveal_strlit("detail");
    reveal_strlit("layer");
    reveal_strlit("link");
    reveal_strlit("zoom");
    reveal_strlit("style");
    assert("detail"@.len() != "layer"@.len() && "detail"@.len() != "link"@.len());
    assert("detail"@.len() != "zoom"@.len() && "detail"@.len() != "style"@.len());
    assert("layer"@.len() != "link"@.len() && "layer"@.len() != "zoom"@.len());
    assert("layer"@[0] != "style"@[0]);
    assert("link"@[0] != "zoom"@[0]);
    assert("link"@.len() != "style"@.len() && "zoom"@.len() != "style"@.len());
}

} // verus!
