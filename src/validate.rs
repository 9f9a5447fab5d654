//! Checking the raw inputs of a request for dimensional consistency.
use vstd::prelude::*;
use crate::error::{Failure, Field, LimitError};
use crate::json::{
    is_json_number, member_texts, members_model, number_list_len, obstacle_members,
    parse_number, parse_number_list, parse_obstacle_list,
};
use crate::text::{decimal, decimal_text, integer_text, is_positive_number_text, positive_number_text, signed_decimal};

verus! {

/// The value text of the first member named `key` at index `i` or later.
pub open spec fn lookup_member(row: Seq<(Seq<char>, Seq<char>)>, key: Seq<char>, i: int) -> Option<Seq<char>>
    decreases row.len() - i,
{
    if i < 0 || i >= row.len() {
        None
    } else if row[i].0 == key {
        Some(row[i].1)
    } else {
        lookup_member(row, key, i + 1)
    }
}

/// The length of the vector that member `key` holds, where it is present
/// and an array of numbers.
pub open spec fn member_vector_len(row: Seq<(Seq<char>, Seq<char>)>, key: Seq<char>) -> Option<nat> {
    match lookup_member(row, key, 0) {
        Some(t) => number_list_len(t),
        None => None,
    }
}

/// The lengths of an obstacle's position and dimensions, where it has both
/// as arrays of numbers; other members are not looked at.
pub open spec fn obstacle_shape(row: Seq<(Seq<char>, Seq<char>)>) -> Option<(nat, nat)> {
    match (member_vector_len(row, "position"@), member_vector_len(row, "dimensions"@)) {
        (Some(p), Some(d)) => Some((p, d)),
        _ => None,
    }
}

/// The shape of each obstacle in the list written as `s`; `None` where the
/// text is not a list of obstacles.
pub open spec fn obstacle_shapes(s: Seq<char>) -> Option<Seq<(nat, nat)>> {
    match obstacle_members(s) {
        None => None,
        Some(rows) => if forall|i: int| 0 <= i < rows.len() ==> (#[trigger] obstacle_shape(rows[i])) is Some {
            Some(rows.map_values(|row: Seq<(Seq<char>, Seq<char>)>| obstacle_shape(row)->Some_0))
        } else {
            None
        },
    }
}

/// The error for the first obstacle, from index `i` on, whose position or
/// dimensions do not have `d` elements; position is looked at first.
pub open spec fn obstacle_error(shapes: Seq<(nat, nat)>, d: nat, i: int) -> Option<Failure>
    decreases shapes.len() - i,
{
    if i < 0 || i >= shapes.len() {
        None
    } else if shapes[i].0 != d {
        Some(Failure::DimensionMismatch {
            field: Field::ObstaclePosition,
            obstacle: Some(i as nat),
            actual: shapes[i].0,
            expected: d,
        })
    } else if shapes[i].1 != d {
        Some(Failure::DimensionMismatch {
            field: Field::ObstacleDimensions,
            obstacle: Some(i as nat),
            actual: shapes[i].1,
            expected: d,
        })
    } else {
        obstacle_error(shapes, d, i + 1)
    }
}

/// The mismatch error for a vector of length `n` where `d` is expected.
pub open spec fn vector_mismatch(field: Field, n: nat, d: nat) -> Failure {
    Failure::DimensionMismatch { field, obstacle: None, actual: n, expected: d }
}

/// The outcome of validating a request. Every text is read first, in the
/// order of the parameters; then the four vectors are held against the
/// environment's length, then each obstacle in turn, then the two scalars.
pub open spec fn check_inputs(
    node0: Seq<char>,
    node1: Seq<char>,
    environment: Seq<char>,
    size: Seq<char>,
    goal: Seq<char>,
    obstacles: Option<Seq<char>>,
    search_radius: Seq<char>,
    sample_points: i32,
) -> Result<(), Failure> {
    if number_list_len(node0) is None {
        Err(Failure::Parse { field: Field::Node0 })
    } else if number_list_len(node1) is None {
        Err(Failure::Parse { field: Field::Node1 })
    } else if number_list_len(environment) is None {
        Err(Failure::Parse { field: Field::Environment })
    } else if number_list_len(size) is None {
        Err(Failure::Parse { field: Field::Size })
    } else if number_list_len(goal) is None {
        Err(Failure::Parse { field: Field::Goal })
    } else if obstacles is Some && obstacle_shapes(obstacles->Some_0) is None {
        Err(Failure::Parse { field: Field::Obstacles })
    } else if !is_json_number(search_radius) {
        Err(Failure::Parse { field: Field::SearchRadius })
    } else {
        consistency(
            number_list_len(node0)->Some_0,
            number_list_len(node1)->Some_0,
            number_list_len(environment)->Some_0,
            number_list_len(size)->Some_0,
            number_list_len(goal)->Some_0,
            match obstacles {
                Some(o) => obstacle_shapes(o),
                None => None,
            },
            search_radius,
            sample_points,
        )
    }
}

/// The outcome of validating inputs that were all read: `n0`, `n1`, `ns` and
/// `ng` are the lengths of the four vectors, `d` the environment's, `shapes`
/// the obstacle shapes where obstacles were given. The vectors are held
/// against `d` first, then each obstacle in turn, then the two scalars.
pub open spec fn consistency(
    n0: nat,
    n1: nat,
    d: nat,
    ns: nat,
    ng: nat,
    shapes: Option<Seq<(nat, nat)>>,
    search_radius: Seq<char>,
    sample_points: i32,
) -> Result<(), Failure> {
    if n0 != d {
        Err(vector_mismatch(Field::Node0, n0, d))
    } else if n1 != d {
        Err(vector_mismatch(Field::Node1, n1, d))
    } else if ns != d {
        Err(vector_mismatch(Field::Size, ns, d))
    } else if ng != d {
        Err(vector_mismatch(Field::Goal, ng, d))
    } else if shapes is Some && obstacle_error(shapes->Some_0, d, 0) is Some {
        Err(obstacle_error(shapes->Some_0, d, 0)->Some_0)
    } else if !positive_number_text(search_radius) {
        Err(Failure::InvalidParameter { field: Field::SearchRadius, value: search_radius })
    } else if sample_points <= 0 {
        Err(Failure::InvalidParameter { field: Field::SamplePoints, value: signed_decimal(sample_points as int) })
    } else {
        Ok(())
    }
}

/// Optional obstacle shapes as lengths.
pub open spec fn opt_shapes(o: Option<&Vec<(usize, usize)>>) -> Option<Seq<(nat, nat)>> {
    match o {
        Some(v) => Some(shape_model(v@)),
        None => None,
    }
}

/// Obstacle shapes as lengths.
pub open spec fn shape_model(v: Seq<(usize, usize)>) -> Seq<(nat, nat)> {
    v.map_values(|p: (usize, usize)| (p.0 as nat, p.1 as nat))
}

/// The text of an optional input.
pub open spec fn opt_text(o: Option<&str>) -> Option<Seq<char>> {
    match o {
        Some(s) => Some(s@),
        None => None,
    }
}

/// The field texts of a request in payload order: the five vectors, the
/// obstacle list (`[]` where none was given), the search radius and the
/// number of sample points.
pub open spec fn request_fields(
    node0: Seq<char>,
    node1: Seq<char>,
    environment: Seq<char>,
    size: Seq<char>,
    goal: Seq<char>,
    obstacles: Option<Seq<char>>,
    search_radius: Seq<char>,
    sample_points: i32,
) -> Seq<Seq<char>> {
    seq![
        node0,
        node1,
        environment,
        size,
        goal,
        match obstacles {
            Some(o) => o,
            None => "[]"@,
        },
        search_radius,
        decimal(sample_points as nat),
    ]
}

/// A request whose inputs passed validation. It keeps the texts it was
/// given, so that both transports hand on exactly what the caller wrote.
pub struct LimitRequest {
    node0: String,
    node1: String,
    environment: String,
    size: String,
    goal: String,
    obstacles: Option<String>,
    search_radius: String,
    sample_points: i32,
    dimensions: usize,
}

impl LimitRequest {
    pub closed spec fn obstacles_text(&self) -> Option<Seq<char>> {
        match self.obstacles {
            Some(o) => Some(o@),
            None => None,
        }
    }

    /// The outcome of validating this request's own inputs.
    pub closed spec fn checked(&self) -> Result<(), Failure> {
        check_inputs(
            self.node0@,
            self.node1@,
            self.environment@,
            self.size@,
            self.goal@,
            self.obstacles_text(),
            self.search_radius@,
            self.sample_points,
        )
    }

    /// The field texts in payload order.
    pub closed spec fn fields(&self) -> Seq<Seq<char>> {
        request_fields(
            self.node0@,
            self.node1@,
            self.environment@,
            self.size@,
            self.goal@,
            self.obstacles_text(),
            self.search_radius@,
            self.sample_points,
        )
    }

    #[verifier::type_invariant]
    pub closed spec fn valid(&self) -> bool {
        &&& self.checked() is Ok
        &&& number_list_len(self.environment@) == Some(self.dimensions as nat)
    }
}

fn member_vector(row: &Vec<(String, String)>, key: &String) -> (r: Option<usize>)
    ensures
        match r {
            Some(n) => member_vector_len(member_texts(row@), key@) == Some(n as nat),
            None => member_vector_len(member_texts(row@), key@) is None,
        },
{
    let ghost m = member_texts(row@);
    let mut i: usize = 0;
    while i < row.len()
        invariant
            i <= row@.len(),
            m == member_texts(row@),
            lookup_member(m, key@, 0) == lookup_member(m, key@, i as int),
        decreases row.len() - i,
    {
        if row[i].0 == *key {
            return match parse_number_list(row[i].1.as_str()) {
                Ok(v) => Some(v.len()),
                Err(_) => None,
            };
        }
        i = i + 1;
    }
    None
}

fn shapes_of(rows: &Vec<Vec<(String, String)>>) -> (r: Option<Vec<(usize, usize)>>)
    ensures
        match r {
            Some(v) => {
                &&& forall|i: int| 0 <= i < members_model(rows@).len() ==> (#[trigger] obstacle_shape(members_model(rows@)[i])) is Some
                &&& shape_model(v@)
                    == members_model(rows@).map_values(|row: Seq<(Seq<char>, Seq<char>)>| obstacle_shape(row)->Some_0)
            },
            None => !(forall|i: int| 0 <= i < members_model(rows@).len() ==> (#[trigger] obstacle_shape(members_model(rows@)[i])) is Some),
        },
{
    let ghost model = members_model(rows@);
    let position = String::from_str("position");
    let dimensions = String::from_str("dimensions");
    let mut out: Vec<(usize, usize)> = Vec::new();
    let mut i: usize = 0;
    while i < rows.len()
        invariant
            i <= rows@.len(),
            model == members_model(rows@),
            model.len() == rows@.len(),
            position@ == "position"@,
            dimensions@ == "dimensions"@,
            out@.len() == i,
            forall|k: int| 0 <= k < i ==> (#[trigger] obstacle_shape(model[k])) is Some,
            forall|k: int| 0 <= k < i ==> (out@[k].0 as nat, out@[k].1 as nat) == #[trigger] obstacle_shape(model[k])->Some_0,
        decreases rows.len() - i,
    {
        assert(model[i as int] == member_texts(rows@[i as int]@));
        let p = member_vector(&rows[i], &position);
        let d = member_vector(&rows[i], &dimensions);
        match (p, d) {
            (Some(p), Some(d)) => {
                out.push((p, d));
            },
            _ => {
                assert(obstacle_shape(model[i as int]) is None);
                return None;
            },
        }
        i = i + 1;
    }
    assert(out@.map_values(|p: (usize, usize)| (p.0 as nat, p.1 as nat))
        =~= model.map_values(|row: Seq<(Seq<char>, Seq<char>)>| obstacle_shape(row)->Some_0));
    Some(out)
}

/// Holds the lengths of inputs that were all read against each other and
/// checks the two scalars: `node0`, `node1`, `size` and `goal` are the
/// lengths of the four vectors, `environment` the environment's, and
/// `obstacles` the position and dimensions lengths of each obstacle.
pub fn check_consistency(
    node0: usize,
    node1: usize,
    environment: usize,
    size: usize,
    goal: usize,
    obstacles: Option<&Vec<(usize, usize)>>,
    search_radius: &str,
    sample_points: i32,
) -> (r: Result<(), LimitError>)
    ensures
        match r {
            Ok(_) => consistency(node0 as nat, node1 as nat, environment as nat, size as nat, goal as nat, opt_shapes(obstacles), search_radius@, sample_points) is Ok,
            Err(e) => consistency(node0 as nat, node1 as nat, environment as nat, size as nat, goal as nat, opt_shapes(obstacles), search_radius@, sample_points) == Err::<(), Failure>(e@),
        },
{
    let d = environment;
    if node0 != d {
        return Err(LimitError::DimensionMismatch { field: Field::Node0, obstacle: None, actual: node0, expected: d });
    }
    if node1 != d {
        return Err(LimitError::DimensionMismatch { field: Field::Node1, obstacle: None, actual: node1, expected: d });
    }
    if size != d {
        return Err(LimitError::DimensionMismatch { field: Field::Size, obstacle: None, actual: size, expected: d });
    }
    if goal != d {
        return Err(LimitError::DimensionMismatch { field: Field::Goal, obstacle: None, actual: goal, expected: d });
    }
    match obstacles {
        Some(s) => match first_obstacle_error(s, d) {
            Some(e) => return Err(e),
            None => {},
        },
        None => {},
    }
    if !is_positive_number_text(search_radius) {
        return Err(LimitError::InvalidParameter { field: Field::SearchRadius, value: String::from_str(search_radius) });
    }
    if sample_points <= 0 {
        return Err(LimitError::InvalidParameter { field: Field::SamplePoints, value: integer_text(sample_points) });
    }
    Ok(())
}

fn first_obstacle_error(shapes: &Vec<(usize, usize)>, d: usize) -> (r: Option<LimitError>)
    ensures
        match r {
            Some(e) => obstacle_error(shape_model(shapes@), d as nat, 0) == Some(e@),
            None => obstacle_error(shape_model(shapes@), d as nat, 0) is None,
        },
{
    let ghost s = shape_model(shapes@);
    let mut i: usize = 0;
    while i < shapes.len()
        invariant
            i <= shapes@.len(),
            s == shape_model(shapes@),
            obstacle_error(s, d as nat, 0) == obstacle_error(s, d as nat, i as int),
        decreases shapes.len() - i,
    {
        let (p, q) = shapes[i];
        if p != d {
            return Some(LimitError::DimensionMismatch {
                field: Field::ObstaclePosition,
                obstacle: Some(i),
                actual: p,
                expected: d,
            });
        }
        if q != d {
            return Some(LimitError::DimensionMismatch {
                field: Field::ObstacleDimensions,
                obstacle: Some(i),
                actual: q,
                expected: d,
            });
        }
        i = i + 1;
    }
    None
}

impl LimitRequest {
    /// The text of the field at `i` in payload order.
    pub(crate) fn field(&self, i: usize) -> (r: String)
        requires
            i < 8,
        ensures
            self.fields().len() == 8,
            r@ == self.fields()[i as int],
    {
        proof {
            use_type_invariant(self);
            reveal_strlit("[]");
        }
        if i == 0 {
            self.node0.clone()
        } else if i == 1 {
            self.node1.clone()
        } else if i == 2 {
            self.environment.clone()
        } else if i == 3 {
            self.size.clone()
        } else if i == 4 {
            self.goal.clone()
        } else if i == 5 {
            match &self.obstacles {
                Some(o) => o.clone(),
                None => String::from_str("[]"),
            }
        } else if i == 6 {
            self.search_radius.clone()
        } else {
            decimal_text(self.sample_points as u32)
        }
    }

    /// The number of dimensions: the length of the environment vector.
    pub fn dimensions(&self) -> (r: usize)
        ensures
            number_list_len(self.fields()[2]) == Some(r as nat),
    {
        proof {
            use_type_invariant(self);
        }
        self.dimensions
    }

    /// The number of sample points.
    pub fn sample_points(&self) -> (r: i32)
        ensures
            r > 0,
            self.fields()[7] == decimal(r as nat),
    {
        proof {
            use_type_invariant(self);
        }
        self.sample_points
    }
}

/// Validates the raw inputs of a request.
///
/// Each text is read in turn (the five vectors as JSON arrays of numbers,
/// the obstacles, where given, as a JSON array of objects each with a
/// `position` and a `dimensions` array of numbers, other members being
/// ignored; the search radius as a JSON number), then the
/// lengths are held against the environment's and the two scalars must be
/// positive. The first failure is reported, as `check_inputs` orders them.
pub fn validate(
    node0: &str,
    node1: &str,
    environment: &str,
    size: &str,
    goal: &str,
    obstacles: Option<&str>,
    search_radius: &str,
    sample_points: i32,
) -> (r: Result<LimitRequest, LimitError>)
    ensures
        match r {
            Ok(req) => {
                &&& check_inputs(node0@, node1@, environment@, size@, goal@, opt_text(obstacles), search_radius@, sample_points) is Ok
                &&& req.fields() == request_fields(node0@, node1@, environment@, size@, goal@, opt_text(obstacles), search_radius@, sample_points)
            },
            Err(e) => check_inputs(node0@, node1@, environment@, size@, goal@, opt_text(obstacles), search_radius@, sample_points) == Err::<(), Failure>(e@),
        },
{
    let n0 = match parse_number_list(node0) {
        Ok(v) => v.len(),
        Err(_) => return Err(LimitError::Parse { field: Field::Node0 }),
    };
    let n1 = match parse_number_list(node1) {
        Ok(v) => v.len(),
        Err(_) => return Err(LimitError::Parse { field: Field::Node1 }),
    };
    let d = match parse_number_list(environment) {
        Ok(v) => v.len(),
        Err(_) => return Err(LimitError::Parse { field: Field::Environment }),
    };
    let ns = match parse_number_list(size) {
        Ok(v) => v.len(),
        Err(_) => return Err(LimitError::Parse { field: Field::Size }),
    };
    let ng = match parse_number_list(goal) {
        Ok(v) => v.len(),
        Err(_) => return Err(LimitError::Parse { field: Field::Goal }),
    };
    let shapes = match obstacles {
        Some(o) => match parse_obstacle_list(o) {
            Ok(rows) => match shapes_of(&rows) {
                Some(s) => Some(s),
                None => return Err(LimitError::Parse { field: Field::Obstacles }),
            },
            Err(_) => return Err(LimitError::Parse { field: Field::Obstacles }),
        },
        None => None,
    };
    if parse_number(search_radius).is_err() {
        return Err(LimitError::Parse { field: Field::SearchRadius });
    }
    let shape_ref = match &shapes {
        Some(v) => Some(v),
        None => None,
    };
    match check_consistency(n0, n1, d, ns, ng, shape_ref, search_radius, sample_points) {
        Ok(()) => {},
        Err(e) => return Err(e),
    }
    let kept = match obstacles {
        Some(o) => Some(String::from_str(o)),
        None => None,
    };
    Ok(LimitRequest {
        node0: String::from_str(node0),
        node1: String::from_str(node1),
        environment: String::from_str(environment),
        size: String::from_str(size),
        goal: String::from_str(goal),
        obstacles: kept,
        search_radius: String::from_str(search_radius),
        sample_points,
        dimensions: d,
    })
}

} // verus!
