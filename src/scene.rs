use vstd::prelude::*;

verus! {

/// How the material at a bounce's nearest hit treats light.
#[derive(Debug, Clone, Copy, PartialEq, Eq, Structural)]
pub enum Surface {
    /// A perfect mirror (reflectivity one).
    Mirror,
    /// A diffuse surface, sampled stochastically.
    Diffuse,
}

/// What the integrator does with one bounce of a path.
#[derive(Debug, Clone, Copy, PartialEq, Eq, Structural)]
pub enum BounceAction {
    /// The ray escaped the scene: the path's radiance is the light gathered so
    /// far plus the throughput times the background colour. This ends the path.
    Background,
    /// The ray is replaced by its mirror reflection; throughput and gathered
    /// light stay as they are.
    Reflect,
    /// A new direction is sampled from the material, the throughput is
    /// weighted by it, and direct light from every light source is gathered.
    Scatter,
}

/// The bounce budget of one path. A path whose budget runs out before it
/// escapes to the background contributes black.
#[derive(Debug, Clone, Copy, PartialEq, Eq, Structural)]
pub struct BounceBudget {
    pub remaining: u32,
}

/// The action for a bounce whose nearest hit is `hit` (none if the ray escaped).
pub open spec fn action_for(hit: Option<Surface>) -> BounceAction {
    match hit {
        None => BounceAction::Background,
        Some(Surface::Mirror) => BounceAction::Reflect,
        Some(Surface::Diffuse) => BounceAction::Scatter,
    }
}

impl BounceBudget {
    /// A budget of `depth` bounces.
    pub fn new(depth: u32) -> (r: Self)
        ensures
            r.remaining == depth,
    {
        BounceBudget { remaining: depth }
    }

    /// Whether another bounce may be traced.
    pub fn has_bounce(&self) -> (r: bool)
        ensures
            r == (self.remaining > 0),
    {
        self.remaining > 0
    }

    /// Decides one bounce. An escape ends the path and leaves the budget as it
    /// is; a hit, mirror or diffuse, spends one bounce.
    pub fn step(&mut self, hit: Option<Surface>) -> (r: BounceAction)
        requires
            old(self).remaining > 0,
        ensures
            r == action_for(hit),
            hit is None ==> final(self).remaining == old(self).remaining,
            hit is Some ==> final(self).remaining == old(self).remaining - 1,
    {
        match hit {
            None => BounceAction::Background,
            Some(surface) => {
                self.remaining = self.remaining - 1;
                match surface {
                    Surface::Mirror => BounceAction::Reflect,
                    Surface::Diffuse => BounceAction::Scatter,
                }
            },
        }
    }
}

/// `k` is the first position of a smallest key among the present ones.
pub open spec fn is_nearest(keys: Seq<Option<u64>>, k: int) -> bool {
    &&& 0 <= k < keys.len()
    &&& keys[k] is Some
    &&& forall|i: int|
        0 <= i < keys.len() && (#[trigger] keys[i]) is Some ==> keys[k]->0 <= keys[i]->0
    &&& forall|i: int| 0 <= i < k && (#[trigger] keys[i]) is Some ==> keys[k]->0 < keys[i]->0
}

/// The nearest of the objects of a scene that a ray hits. `keys[i]` is the
/// hit distance of object `i`, if it is hit, as a key that orders as the
/// distance does. At equal distances the object scanned first wins.
pub fn nearest_hit(keys: &Vec<Option<u64>>) -> (r: Option<usize>)
    ensures
        r is None <==> forall|i: int| 0 <= i < keys@.len() ==> (#[trigger] keys@[i]) is None,
        r matches Some(k) ==> is_nearest(keys@, k as int),
{
    let mut best: Option<usize> = None;
    let mut best_key: u64 = 0;
    let mut i: usize = 0;
    while i < keys.len()
        invariant
            0 <= i <= keys@.len(),
            best is None ==> forall|j: int| 0 <= j < i ==> (#[trigger] keys@[j]) is None,
            best matches Some(k) ==> {
                &&& k < i
                &&& keys@[k as int] == Some(best_key)
                &&& forall|j: int|
                    0 <= j < i && (#[trigger] keys@[j]) is Some ==> best_key <= keys@[j]->0
                &&& forall|j: int| 0 <= j < k && (#[trigger] keys@[j]) is Some ==> best_key < keys@[j]->0
            },
        decreases keys@.len() - i,
    {
        if let Some(key) = keys[i] {
            let closer = match best {
                None => true,
                Some(_) => key < best_key,
            };
            if closer {
                best = Some(i);
                best_key = key;
            }
        }
        i = i + 1;
    }
    best
}

} // verus!
