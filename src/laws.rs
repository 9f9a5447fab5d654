//! General facts about validation and the two transports.
use vstd::prelude::*;
use crate::error::Failure;
use crate::json::{is_json_number, number_list_len};
use crate::payload::{argument_list, payload_text, Credentials};
use crate::text::positive_number_text;
use crate::validate::{check_inputs, obstacle_error, obstacle_shapes, request_fields, LimitRequest};

verus! {

/// Whether every obstacle shape has `d` elements in both vectors.
pub open spec fn shapes_fit(shapes: Seq<(nat, nat)>, d: nat) -> bool {
    forall|i: int| 0 <= i < shapes.len() ==> (#[trigger] shapes[i]).0 == d && shapes[i].1 == d
}

/// Whether the obstacles, where given, are a well-formed list.
pub open spec fn obstacles_read(obstacles: Option<Seq<char>>) -> bool {
    obstacles matches Some(o) ==> obstacle_shapes(o) is Some
}

/// Whether every text is read without error.
pub open spec fn all_read(
    node0: Seq<char>,
    node1: Seq<char>,
    environment: Seq<char>,
    size: Seq<char>,
    goal: Seq<char>,
    obstacles: Option<Seq<char>>,
    search_radius: Seq<char>,
) -> bool {
    &&& number_list_len(node0) is Some
    &&& number_list_len(node1) is Some
    &&& number_list_len(environment) is Some
    &&& number_list_len(size) is Some
    &&& number_list_len(goal) is Some
    &&& obstacles_read(obstacles)
    &&& is_json_number(search_radius)
}

proof fn lemma_no_obstacle_error(shapes: Seq<(nat, nat)>, d: nat, i: int)
    requires
        0 <= i,
        shapes_fit(shapes, d),
    ensures
        obstacle_error(shapes, d, i) is None,
    decreases shapes.len() - i,
{
    if i < shapes.len() {
        assert(shapes[i].0 == d && shapes[i].1 == d);
        lemma_no_obstacle_error(shapes, d, i + 1);
    }
}

proof fn lemma_first_obstacle_error(shapes: Seq<(nat, nat)>, d: nat, i: int, k: int)
    requires
        0 <= i <= k < shapes.len(),
        forall|j: int| i <= j < k ==> (#[trigger] shapes[j]).0 == d && shapes[j].1 == d,
        shapes[k].0 != d || shapes[k].1 != d,
    ensures
        obstacle_error(shapes, d, i) matches Some(Failure::DimensionMismatch { obstacle, expected, .. })
            && obstacle == Some(k as nat) && expected == d,
    decreases k - i,
{
    if i < k {
        assert(shapes[i].0 == d && shapes[i].1 == d);
        lemma_first_obstacle_error(shapes, d, i + 1, k);
    }
}

/// Where every text is well formed, every vector and every obstacle vector
/// has as many elements as the environment, and both scalars are positive,
/// validation succeeds.
pub proof fn lemma_consistent_inputs_pass(
    node0: Seq<char>,
    node1: Seq<char>,
    environment: Seq<char>,
    size: Seq<char>,
    goal: Seq<char>,
    obstacles: Option<Seq<char>>,
    search_radius: Seq<char>,
    sample_points: i32,
)
    requires
        all_read(node0, node1, environment, size, goal, obstacles, search_radius),
        number_list_len(node0) == number_list_len(environment),
        number_list_len(node1) == number_list_len(environment),
        number_list_len(size) == number_list_len(environment),
        number_list_len(goal) == number_list_len(environment),
        obstacles matches Some(o) ==> shapes_fit(obstacle_shapes(o)->Some_0, number_list_len(environment)->Some_0),
        positive_number_text(search_radius),
        sample_points > 0,
    ensures
        check_inputs(node0, node1, environment, size, goal, obstacles, search_radius, sample_points) is Ok,
{
    if let Some(o) = obstacles {
        lemma_no_obstacle_error(obstacle_shapes(o)->Some_0, number_list_len(environment)->Some_0, 0);
    }
}

/// Where every text is well formed but one of the four vectors has another
/// length than the environment, validation fails with a dimension mismatch
/// that names the environment's length as the expected one.
pub proof fn lemma_vector_mismatch_fails(
    node0: Seq<char>,
    node1: Seq<char>,
    environment: Seq<char>,
    size: Seq<char>,
    goal: Seq<char>,
    obstacles: Option<Seq<char>>,
    search_radius: Seq<char>,
    sample_points: i32,
)
    requires
        all_read(node0, node1, environment, size, goal, obstacles, search_radius),
        number_list_len(node0) != number_list_len(environment)
            || number_list_len(node1) != number_list_len(environment)
            || number_list_len(size) != number_list_len(environment)
            || number_list_len(goal) != number_list_len(environment),
    ensures
        check_inputs(node0, node1, environment, size, goal, obstacles, search_radius, sample_points)
            matches Err(Failure::DimensionMismatch { obstacle: None, expected, .. })
            && expected == number_list_len(environment)->Some_0,
{
}

/// Where every text is well formed and every vector has the environment's
/// length, and obstacle `k` is the first whose position or dimensions has
/// another length, validation fails with a dimension mismatch that names
/// index `k` and the environment's length as the expected one.
pub proof fn lemma_obstacle_mismatch_fails(
    node0: Seq<char>,
    node1: Seq<char>,
    environment: Seq<char>,
    size: Seq<char>,
    goal: Seq<char>,
    obstacles: Seq<char>,
    search_radius: Seq<char>,
    sample_points: i32,
    k: int,
)
    requires
        all_read(node0, node1, environment, size, goal, Some(obstacles), search_radius),
        number_list_len(node0) == number_list_len(environment),
        number_list_len(node1) == number_list_len(environment),
        number_list_len(size) == number_list_len(environment),
        number_list_len(goal) == number_list_len(environment),
        0 <= k < obstacle_shapes(obstacles)->Some_0.len(),
        shapes_fit(obstacle_shapes(obstacles)->Some_0.take(k), number_list_len(environment)->Some_0),
        obstacle_shapes(obstacles)->Some_0[k].0 != number_list_len(environment)->Some_0
            || obstacle_shapes(obstacles)->Some_0[k].1 != number_list_len(environment)->Some_0,
    ensures
        check_inputs(node0, node1, environment, size, goal, Some(obstacles), search_radius, sample_points)
            matches Err(Failure::DimensionMismatch { obstacle, expected, .. })
            && obstacle == Some(k as nat)
            && expected == number_list_len(environment)->Some_0,
{
    let shapes = obstacle_shapes(obstacles)->Some_0;
    let d = number_list_len(environment)->Some_0;
    assert forall|j: int| 0 <= j < k implies (#[trigger] shapes[j]).0 == d && shapes[j].1 == d by {
        assert(shapes.take(k)[j] == shapes[j]);
    }
    lemma_first_obstacle_error(shapes, d, 0, k);
}

/// Where no obstacles are given, the payload holds an empty list as its
/// obstacles member.
pub proof fn lemma_absent_obstacles_empty(
    node0: Seq<char>,
    node1: Seq<char>,
    environment: Seq<char>,
    size: Seq<char>,
    goal: Seq<char>,
    search_radius: Seq<char>,
    sample_points: i32,
    key: Seq<char>,
)
    ensures
        exists|before: Seq<char>, after: Seq<char>|
            payload_text(request_fields(node0, node1, environment, size, goal, None, search_radius, sample_points), key)
                == before + ",\"obstacles\":[]"@ + after,
{
    let f = request_fields(node0, node1, environment, size, goal, None, search_radius, sample_points);
    reveal_strlit(",\"obstacles\":");
    reveal_strlit("[]");
    reveal_strlit(",\"obstacles\":[]");
    let before = "{\"node0\":"@ + f[0] + ",\"node1\":"@ + f[1] + ",\"environment\":"@ + f[2]
        + ",\"size\":"@ + f[3] + ",\"goal\":"@ + f[4];
    let after = ",\"search_radius\":"@ + f[6] + ",\"sample_points\":"@ + f[7]
        + ",\"auth\":{\"authorization_key\":"@ + key + "}}"@;
    assert(f[5] == "[]"@);
    assert(",\"obstacles\":"@ + "[]"@ =~= ",\"obstacles\":[]"@);
    assert(payload_text(f, key) =~= before + ",\"obstacles\":[]"@ + after);
}

/// Both transports are handed the same data: after the passcode, the
/// executable's arguments are exactly the field texts from which the
/// payload is built, in the same order.
pub proof fn lemma_same_data_both_ways(request: LimitRequest, credentials: Credentials)
    ensures
        argument_list(credentials.passcode_text(), request.fields()).len() == request.fields().len() + 1,
        forall|i: int| 0 <= i < request.fields().len()
            ==> argument_list(credentials.passcode_text(), request.fields())[i + 1] == #[trigger] request.fields()[i],
        payload_text(request.fields(), credentials.key_literal())
            == payload_text(argument_list(credentials.passcode_text(), request.fields()).drop_first(), credentials.key_literal()),
{
    assert(argument_list(credentials.passcode_text(), request.fields()).drop_first() =~= request.fields());
}

} // verus!
