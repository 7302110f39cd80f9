//! The points of the devices as they are listed for an operator.

use vstd::prelude::*;
use vstd::string::*;

verus! {

broadcast use vstd::std_specs::vec::axiom_vec_decreases_to_view;

/// One point of a group of a model.
#[derive(Clone, Debug)]
pub struct GroupPoint {
    pub name: String,
    pub desc: Option<String>,
}

/// A group of a model: its own points, and the groups nested in it.
#[derive(Debug)]
pub struct Group {
    pub name: String,
    pub desc: Option<String>,
    pub points: Vec<GroupPoint>,
    pub groups: Vec<Group>,
}

/// A point as it is listed.
#[derive(Clone, Debug, Default)]
pub struct PointResponse {
    /// Model number.
    pub model: i32,
    /// Name of the point.
    pub name: String,
    /// What the model says of the point, if anything.
    pub description: String,
}

/// A model with the points it holds.
#[derive(Clone, Debug, Default)]
pub struct ModelResponse {
    /// Model number.
    pub model: i32,
    /// Name of the model.
    pub name: String,
    /// What is said of the model, if anything.
    pub description: String,
    pub points: Vec<PointResponse>,
}

/// A device with the models it carries.
#[derive(Clone, Debug, Default)]
pub struct UnitResponse {
    /// The device as `address/sub-unit`.
    pub unit: String,
    pub models: Vec<ModelResponse>,
}

/// The devices of the gateway.
#[derive(Clone, Debug, Default)]
pub struct UnitList {
    pub units: Vec<UnitResponse>,
}

/// The content of a [`PointResponse`].
pub struct PointResponseView {
    pub model: i32,
    pub name: Seq<char>,
    pub description: Seq<char>,
}

impl View for PointResponse {
    type V = PointResponseView;

    open spec fn view(&self) -> PointResponseView {
        PointResponseView { model: self.model, name: self.name@, description: self.description@ }
    }
}

/// The contents of a list of points.
pub open spec fn point_views(v: Seq<PointResponse>) -> Seq<PointResponseView> {
    v.map_values(|p: PointResponse| p@)
}

/// The path of a group: its name behind a dot, behind the path of the group
/// it is nested in, if it is nested.
pub open spec fn group_path(prefix: Option<Seq<char>>, name: Seq<char>) -> Seq<char> {
    match prefix {
        Some(p) => p + "."@ + name,
        None => "."@ + name,
    }
}

/// A description, or no text where there is none.
pub open spec fn text_or_empty(o: Option<String>) -> Seq<char> {
    match o {
        Some(s) => s@,
        None => Seq::empty(),
    }
}

/// The points of a group itself, each under its path, in their order.
pub open spec fn own_points(points: Seq<GroupPoint>, path: Seq<char>, model: i32) -> Seq<
    PointResponseView,
> {
    Seq::new(
        points.len(),
        |i: int|
            PointResponseView {
                model,
                name: path + "."@ + points[i].name@,
                description: text_or_empty(points[i].desc),
            },
    )
}

/// The points of a group and of all groups nested in it, each under its
/// path: first the group's own points, then those of its first nested group
/// with all that is nested in that, and so on.
pub open spec fn group_points(group: Group, prefix: Option<Seq<char>>, model: i32) -> Seq<
    PointResponseView,
>
    decreases group, 1int,
{
    let path = group_path(prefix, group.name@);
    own_points(group.points@, path, model) + nested_points(group.groups@, path, model)
}

/// The points of a run of groups that are nested under `path`.
pub open spec fn nested_points(groups: Seq<Group>, path: Seq<char>, model: i32) -> Seq<
    PointResponseView,
>
    decreases groups, 0int,
{
    if groups.len() == 0 {
        Seq::empty()
    } else {
        nested_points(groups.drop_last(), path, model) + group_points(
            groups.last(),
            Some(path),
            model,
        )
    }
}

/// Lists the points of a group and of all that is nested in it, adding them
/// to `catalog`.
pub fn iter_group(group: &Group, catalog: &mut Vec<PointResponse>, prefix: Option<&str>, model: i32)
    ensures
        point_views(final(catalog)@) == point_views(old(catalog)@) + group_points(
            *group,
            match prefix {
                Some(p) => Some(p@),
                None => None,
            },
            model,
        ),
    decreases group,
{
    let mut path = match prefix {
        Some(p) => {
            let mut s = String::from_str(p);
            s.append(".");
            s
        },
        None => String::from_str("."),
    };
    path.append(group.name.as_str());
    let ghost before = point_views(catalog@);
    let ghost p = path@;
    let n: usize = group.points.len();
    let mut i: usize = 0;
    assert(point_views(catalog@) =~= before + own_points(group.points@.take(0), p, model));
    while i < n
        invariant
            n == group.points@.len(),
            i <= n,
            path@ == p,
            point_views(catalog@) == before + own_points(group.points@.take(i as int), p, model),
        decreases n - i,
    {
        let point = &group.points[i];
        let mut name = path.clone();
        name.append(".");
        name.append(point.name.as_str());
        let description = match &point.desc {
            Some(d) => d.clone(),
            None => String::new(),
        };
        let ghost old_catalog = catalog@;
        let entry = PointResponse { model, name, description };
        catalog.push(entry);
        i = i + 1;
        proof {
            assert(point_views(catalog@) =~= point_views(old_catalog).push(entry@));
            assert forall|k: int| 0 <= k < i - 1 implies group.points@.take(i as int)[k]
                == group.points@.take(i - 1)[k] by {}
            assert(own_points(group.points@.take(i as int), p, model) =~= own_points(
                group.points@.take(i - 1),
                p,
                model,
            ).push(entry@));
            assert(point_views(catalog@) =~= before + own_points(
                group.points@.take(i as int),
                p,
                model,
            ));
        }
    }
    assert(group.points@.take(n as int) =~= group.points@);
    let ghost own = point_views(catalog@);
    let m: usize = group.groups.len();
    let mut j: usize = 0;
    assert(point_views(catalog@) =~= own + nested_points(group.groups@.take(0), p, model));
    while j < m
        invariant
            m == group.groups@.len(),
            j <= m,
            path@ == p,
            point_views(catalog@) == own + nested_points(group.groups@.take(j as int), p, model),
        decreases m - j,
    {
        let ghost sofar = point_views(catalog@);
        proof {
            assert(group.groups@.take(j + 1).drop_last() =~= group.groups@.take(j as int));
            assert(group.groups@.take(j + 1).last() == group.groups@[j as int]);
        }
        iter_group(&group.groups[j], catalog, Some(path.as_str()), model);
        proof {
            assert(point_views(catalog@) =~= own + nested_points(
                group.groups@.take(j + 1),
                p,
                model,
            ));
        }
        j = j + 1;
    }
    proof {
        assert(group.groups@.take(m as int) =~= group.groups@);
        assert(point_views(catalog@) =~= before + group_points(
            *group,
            match prefix {
                Some(x) => Some(x@),
                None => None,
            },
            model,
        ));
    }
}

/// One point of a block of a model.
#[derive(Clone, Debug)]
pub struct BlockPoint {
    pub id: String,
    /// What the model says of the point, if anything.
    pub description: Option<String>,
}

/// The points of one block, each under its own name, in their order.
pub open spec fn block_points(points: Seq<BlockPoint>, model: i32) -> Seq<PointResponseView> {
    Seq::new(
        points.len(),
        |i: int|
            PointResponseView {
                model,
                name: points[i].id@,
                description: text_or_empty(points[i].description),
            },
    )
}

/// The points of a run of blocks: those of the first block, then those of
/// the second, and so on.
pub open spec fn blocks_points(blocks: Seq<Vec<BlockPoint>>, model: i32) -> Seq<PointResponseView>
    decreases blocks.len(),
{
    if blocks.len() == 0 {
        Seq::empty()
    } else {
        blocks_points(blocks.drop_last(), model) + block_points(blocks.last()@, model)
    }
}

/// Lists a model that is laid out in blocks with all points of its blocks.
pub fn model_response_from_blocks(model: i32, name: &str, blocks: &Vec<Vec<BlockPoint>>) -> (r:
    ModelResponse)
    ensures
        r.model == model,
        r.name@ == name@,
        r.description@.len() == 0,
        point_views(r.points@) == blocks_points(blocks@, model),
{
    let mut points: Vec<PointResponse> = Vec::new();
    let n: usize = blocks.len();
    let mut i: usize = 0;
    assert(point_views(points@) =~= blocks_points(blocks@.take(0), model));
    while i < n
        invariant
            n == blocks@.len(),
            i <= n,
            point_views(points@) == blocks_points(blocks@.take(i as int), model),
        decreases n - i,
    {
        let block = &blocks[i];
        let ghost done = point_views(points@);
        let m: usize = block.len();
        let mut j: usize = 0;
        assert(point_views(points@) =~= done + block_points(block@.take(0), model));
        while j < m
            invariant
                m == block@.len(),
                j <= m,
                point_views(points@) == done + block_points(block@.take(j as int), model),
            decreases m - j,
        {
            let point = &block[j];
            let entry = PointResponse {
                model,
                name: point.id.clone(),
                description: match &point.description {
                    Some(d) => d.clone(),
                    None => String::new(),
                },
            };
            let ghost before = points@;
            points.push(entry);
            j = j + 1;
            proof {
                assert(point_views(points@) =~= point_views(before).push(entry@));
                assert forall|k: int| 0 <= k < j - 1 implies block@.take(j as int)[k] == block@.take(
                    j - 1,
                )[k] by {}
                assert(block_points(block@.take(j as int), model) =~= block_points(
                    block@.take(j - 1),
                    model,
                ).push(entry@));
                assert(point_views(points@) =~= done + block_points(block@.take(j as int), model));
            }
        }
        proof {
            assert(block@.take(m as int) =~= block@);
            assert(blocks@.take(i + 1).drop_last() =~= blocks@.take(i as int));
            assert(blocks@.take(i + 1).last() == blocks@[i as int]);
        }
        i = i + 1;
    }
    assert(blocks@.take(n as int) =~= blocks@);
    ModelResponse { model, name: String::from_str(name), description: String::new(), points }
}

/// Lists a model with all points of its group.
pub fn model_response(model: i32, group: &Group) -> (r: ModelResponse)
    ensures
        r.model == model,
        r.name@ == group.name@,
        r.description@ == text_or_empty(group.desc),
        point_views(r.points@) == group_points(*group, None, model),
{
    let mut points: Vec<PointResponse> = Vec::new();
    assert(point_views(points@) =~= Seq::<PointResponseView>::empty());
    iter_group(group, &mut points, None, model);
    assert(point_views(points@) =~= group_points(*group, None, model));
    ModelResponse {
        model,
        name: group.name.clone(),
        description: match &group.desc {
            Some(d) => d.clone(),
            None => String::new(),
        },
        points,
    }
}

} // verus!
