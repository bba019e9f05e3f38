use vstd::prelude::*;

verus! {

/// Outcome of a successful request.
#[derive(Debug)]
pub enum ApiResponse {
    Success,
    Created,
    JsonData(String),
}

impl ApiResponse {
    /// HTTP status code that carries this response.
    pub fn status_code(&self) -> (r: u16)
        ensures
            r == match *self {
                ApiResponse::Created => 201u16,
                _ => 200u16,
            },
    {
        match self {
            ApiResponse::Success => 200,
            ApiResponse::Created => 201,
            ApiResponse::JsonData(_) => 200,
        }
    }
}

/// Failure of a request.
#[derive(Debug, Clone, Copy, PartialEq, Eq, Structural)]
pub enum ApiError {
    BadRequest,
    Forbidden,
    Unauthorised,
    InternalServerError,
}

impl ApiError {
    /// HTTP status code that carries this error.
    pub fn status_code(&self) -> (r: u16)
        ensures
            r == match *self {
                ApiError::BadRequest => 400u16,
                ApiError::Forbidden => 403u16,
                ApiError::Unauthorised => 401u16,
                ApiError::InternalServerError => 500u16,
            },
    {
        match self {
            ApiError::BadRequest => 400,
            ApiError::Forbidden => 403,
            ApiError::Unauthorised => 401,
            ApiError::InternalServerError => 500,
        }
    }
}

/// Whether two strings hold the same characters.
pub fn str_eq(a: &str, b: &str) -> (r: bool)
    ensures
        r == (a@ == b@),
{
    a.to_owned() == b.to_owned()
}

/// Whether a string is empty.
pub open spec fn is_blank(s: String) -> bool {
    s@.len() == 0
}

/// Coarse fill level of a node's hopper.
#[derive(Debug, Clone, Copy, PartialEq, Eq, Structural)]
pub enum NodeLevel {
    Low,
    Med,
    Loaded,
}

/// The wire token of a fill level.
pub open spec fn node_level_token(l: NodeLevel) -> Seq<char> {
    match l {
        NodeLevel::Low => "LOW"@,
        NodeLevel::Med => "MED"@,
        NodeLevel::Loaded => "LOADED"@,
    }
}

/// The fill level whose wire token is `t`, if any.
pub open spec fn node_level_of(t: Seq<char>) -> Option<NodeLevel> {
    if t == node_level_token(NodeLevel::Low) {
        Some(NodeLevel::Low)
    } else if t == node_level_token(NodeLevel::Med) {
        Some(NodeLevel::Med)
    } else if t == node_level_token(NodeLevel::Loaded) {
        Some(NodeLevel::Loaded)
    } else {
        None
    }
}

/// Decoding the wire token of a fill level gives that level back.
pub proof fn lemma_node_level_round_trip(l: NodeLevel)
    ensures
        node_level_of(node_level_token(l)) == Some(l),
{
    lemma_node_level_tokens_distinct();
}

impl Default for NodeLevel {
    fn default() -> (r: Self)
        ensures
            r == NodeLevel::Low,
    {
        NodeLevel::Low
    }
}

impl NodeLevel {
    /// The upper-case wire token of this level.
    pub fn token(&self) -> (r: &'static str)
        ensures
            r@ == node_level_token(*self),
    {
        match self {
            NodeLevel::Low => "LOW",
            NodeLevel::Med => "MED",
            NodeLevel::Loaded => "LOADED",
        }
    }

    /// The level whose wire token is `t`, if any.
    pub fn from_token(t: &str) -> (r: Option<NodeLevel>)
        ensures
            r == node_level_of(t@),
            match r {
                Some(l) => node_level_token(l) == t@,
                None => forall|l: NodeLevel| node_level_token(l) != t@,
            },
            forall|l: NodeLevel| node_level_token(l) == t@ ==> r == Some(l),
    {
        let r = if str_eq(t, "LOW") {
            Some(NodeLevel::Low)
        } else if str_eq(t, "MED") {
            Some(NodeLevel::Med)
        } else if str_eq(t, "LOADED") {
            Some(NodeLevel::Loaded)
        } else {
            None
        };
        proof {
            lemma_node_level_tokens_distinct();
            if let Some(y) = r {
                assert(node_level_token(y) == t@);
            }
        }
        r
    }
}

/// Distinct fill levels have distinct wire tokens.
pub proof fn lemma_node_level_tokens_distinct()
    ensures
        forall|a: NodeLevel, b: NodeLevel|
            node_level_token(a) == node_level_token(b) ==> a == b,
{
    reveal_strlit("LOW");
    reveal_strlit("MED");
    reveal_strlit("LOADED");
    assert forall|a: NodeLevel, b: NodeLevel|
        node_level_token(a) == node_level_token(b) implies a == b by {
        if node_level_token(a) == node_level_token(b) {
            assert(node_level_token(a)[0] == node_level_token(b)[0]);
            assert(node_level_token(a).len() == node_level_token(b).len());
        }
    }
}

/// Operating mode of the machine.
#[derive(Debug, Clone, Copy, PartialEq, Eq, Structural)]
pub enum SystemStatus {
    PauseJob,
    RunJob,
    RunningJob,
    ReadyToStartJob,
    CancelJob,
    ResumeJob,
    StopSystem,
    PreparingJob,
    RefillNodesSystem,
    Faulted,
}

/// The wire token of an operating mode: the variant's bare name.
pub open spec fn system_status_token(s: SystemStatus) -> Seq<char> {
    match s {
        SystemStatus::PauseJob => "PauseJob"@,
        SystemStatus::RunJob => "RunJob"@,
        SystemStatus::RunningJob => "RunningJob"@,
        SystemStatus::ReadyToStartJob => "ReadyToStartJob"@,
        SystemStatus::CancelJob => "CancelJob"@,
        SystemStatus::ResumeJob => "ResumeJob"@,
        SystemStatus::StopSystem => "StopSystem"@,
        SystemStatus::PreparingJob => "PreparingJob"@,
        SystemStatus::RefillNodesSystem => "RefillNodesSystem"@,
        SystemStatus::Faulted => "Faulted"@,
    }
}

/// Distinct operating modes have distinct wire tokens.
pub proof fn lemma_system_status_tokens_distinct()
    ensures
        forall|a: SystemStatus, b: SystemStatus|
            system_status_token(a) == system_status_token(b) ==> a == b,
{
    reveal_strlit("PauseJob");
    reveal_strlit("RunJob");
    reveal_strlit("RunningJob");
    reveal_strlit("ReadyToStartJob");
    reveal_strlit("CancelJob");
    reveal_strlit("ResumeJob");
    reveal_strlit("StopSystem");
    reveal_strlit("PreparingJob");
    reveal_strlit("RefillNodesSystem");
    reveal_strlit("Faulted");
    assert forall|a: SystemStatus, b: SystemStatus|
        system_status_token(a) == system_status_token(b) implies a == b by {
        if system_status_token(a) == system_status_token(b) {
            let (x, y) = (system_status_token(a), system_status_token(b));
            assert(x.len() == y.len());
            assert(x[0] == y[0]);
            assert(x[1] == y[1]);
            assert(x[2] == y[2]);
            assert(x[3] == y[3]);
        }
    }
}

/// The operating mode whose wire token is `t`, if any.
pub open spec fn system_status_of(t: Seq<char>) -> Option<SystemStatus> {
    if t == system_status_token(SystemStatus::PauseJob) {
        Some(SystemStatus::PauseJob)
    } else if t == system_status_token(SystemStatus::RunJob) {
        Some(SystemStatus::RunJob)
    } else if t == system_status_token(SystemStatus::RunningJob) {
        Some(SystemStatus::RunningJob)
    } else if t == system_status_token(SystemStatus::ReadyToStartJob) {
        Some(SystemStatus::ReadyToStartJob)
    } else if t == system_status_token(SystemStatus::CancelJob) {
        Some(SystemStatus::CancelJob)
    } else if t == system_status_token(SystemStatus::ResumeJob) {
        Some(SystemStatus::ResumeJob)
    } else if t == system_status_token(SystemStatus::StopSystem) {
        Some(SystemStatus::StopSystem)
    } else if t == system_status_token(SystemStatus::PreparingJob) {
        Some(SystemStatus::PreparingJob)
    } else if t == system_status_token(SystemStatus::RefillNodesSystem) {
        Some(SystemStatus::RefillNodesSystem)
    } else if t == system_status_token(SystemStatus::Faulted) {
        Some(SystemStatus::Faulted)
    } else {
        None
    }
}

/// Decoding the wire token of an operating mode gives that mode back.
pub proof fn lemma_system_status_round_trip(m: SystemStatus)
    ensures
        system_status_of(system_status_token(m)) == Some(m),
{
    lemma_system_status_tokens_distinct();
}

impl Default for SystemStatus {
    fn default() -> (r: Self)
        ensures
            r == SystemStatus::StopSystem,
    {
        SystemStatus::StopSystem
    }
}

impl SystemStatus {
    /// The wire token of this mode.
    pub fn token(&self) -> (r: &'static str)
        ensures
            r@ == system_status_token(*self),
    {
        match self {
            SystemStatus::PauseJob => "PauseJob",
            SystemStatus::RunJob => "RunJob",
            SystemStatus::RunningJob => "RunningJob",
            SystemStatus::ReadyToStartJob => "ReadyToStartJob",
            SystemStatus::CancelJob => "CancelJob",
            SystemStatus::ResumeJob => "ResumeJob",
            SystemStatus::StopSystem => "StopSystem",
            SystemStatus::PreparingJob => "PreparingJob",
            SystemStatus::RefillNodesSystem => "RefillNodesSystem",
            SystemStatus::Faulted => "Faulted",
        }
    }

    /// The mode whose wire token is `t`, if any.
    pub fn from_token(t: &str) -> (r: Option<SystemStatus>)
        ensures
            r == system_status_of(t@),
            match r {
                Some(s) => system_status_token(s) == t@,
                None => forall|s: SystemStatus| system_status_token(s) != t@,
            },
            forall|s: SystemStatus| system_status_token(s) == t@ ==> r == Some(s),
    {
        let r = if str_eq(t, "PauseJob") {
            Some(SystemStatus::PauseJob)
        } else if str_eq(t, "RunJob") {
            Some(SystemStatus::RunJob)
        } else if str_eq(t, "RunningJob") {
            Some(SystemStatus::RunningJob)
        } else if str_eq(t, "ReadyToStartJob") {
            Some(SystemStatus::ReadyToStartJob)
        } else if str_eq(t, "CancelJob") {
            Some(SystemStatus::CancelJob)
        } else if str_eq(t, "ResumeJob") {
            Some(SystemStatus::ResumeJob)
        } else if str_eq(t, "StopSystem") {
            Some(SystemStatus::StopSystem)
        } else if str_eq(t, "PreparingJob") {
            Some(SystemStatus::PreparingJob)
        } else if str_eq(t, "RefillNodesSystem") {
            Some(SystemStatus::RefillNodesSystem)
        } else if str_eq(t, "Faulted") {
            Some(SystemStatus::Faulted)
        } else {
            None
        };
        proof {
            lemma_system_status_tokens_distinct();
            if let Some(y) = r {
                assert(system_status_token(y) == t@);
            }
        }
        r
    }
}

/// Progress of the running job.
#[derive(Debug, Clone, Copy, PartialEq, Eq, Structural)]
pub struct JobProgress {
    pub job_progress: usize,
}

impl Default for JobProgress {
    fn default() -> (r: Self)
        ensures
            r.job_progress == 0,
    {
        JobProgress { job_progress: 0 }
    }
}

/// Fill level and loaded ingredient of each of the four nodes.
#[derive(Debug, Clone)]
pub struct NodeLevels {
    pub node_a_level: NodeLevel,
    pub node_a_level_ingredient_id: String,
    pub node_a_level_ingredient_name: String,
    pub node_b_level: NodeLevel,
    pub node_b_level_ingredient_id: String,
    pub node_b_level_ingredient_name: String,
    pub node_c_level: NodeLevel,
    pub node_c_level_ingredient_id: String,
    pub node_c_level_ingredient_name: String,
    pub node_d_level: NodeLevel,
    pub node_d_level_ingredient_id: String,
    pub node_d_level_ingredient_name: String,
}

impl NodeLevels {
    /// Every level `Low`, every ingredient id and name empty.
    pub open spec fn is_default(&self) -> bool {
        &&& self.node_a_level == NodeLevel::Low
        &&& self.node_b_level == NodeLevel::Low
        &&& self.node_c_level == NodeLevel::Low
        &&& self.node_d_level == NodeLevel::Low
        &&& is_blank(self.node_a_level_ingredient_id)
        &&& is_blank(self.node_a_level_ingredient_name)
        &&& is_blank(self.node_b_level_ingredient_id)
        &&& is_blank(self.node_b_level_ingredient_name)
        &&& is_blank(self.node_c_level_ingredient_id)
        &&& is_blank(self.node_c_level_ingredient_name)
        &&& is_blank(self.node_d_level_ingredient_id)
        &&& is_blank(self.node_d_level_ingredient_name)
    }

    /// A copy equal to `self`.
    pub fn snapshot(&self) -> (r: Self)
        ensures
            r == *self,
    {
        NodeLevels {
            node_a_level: self.node_a_level,
            node_a_level_ingredient_id: self.node_a_level_ingredient_id.clone(),
            node_a_level_ingredient_name: self.node_a_level_ingredient_name.clone(),
            node_b_level: self.node_b_level,
            node_b_level_ingredient_id: self.node_b_level_ingredient_id.clone(),
            node_b_level_ingredient_name: self.node_b_level_ingredient_name.clone(),
            node_c_level: self.node_c_level,
            node_c_level_ingredient_id: self.node_c_level_ingredient_id.clone(),
            node_c_level_ingredient_name: self.node_c_level_ingredient_name.clone(),
            node_d_level: self.node_d_level,
            node_d_level_ingredient_id: self.node_d_level_ingredient_id.clone(),
            node_d_level_ingredient_name: self.node_d_level_ingredient_name.clone(),
        }
    }
}

impl Default for NodeLevels {
    fn default() -> (r: Self)
        ensures
            r.is_default(),
    {
        NodeLevels {
            node_a_level: NodeLevel::Low,
            node_a_level_ingredient_id: String::new(),
            node_a_level_ingredient_name: String::new(),
            node_b_level: NodeLevel::Low,
            node_b_level_ingredient_id: String::new(),
            node_b_level_ingredient_name: String::new(),
            node_c_level: NodeLevel::Low,
            node_c_level_ingredient_id: String::new(),
            node_c_level_ingredient_name: String::new(),
            node_d_level: NodeLevel::Low,
            node_d_level_ingredient_id: String::new(),
            node_d_level_ingredient_name: String::new(),
        }
    }
}

/// Calibration weight of each of the four nodes.
#[derive(Debug, Clone, Copy, PartialEq, Eq, Structural)]
pub struct NodeWeights {
    pub node_a_weight: u32,
    pub node_b_weight: u32,
    pub node_c_weight: u32,
    pub node_d_weight: u32,
}

impl NodeWeights {
    /// Every weight zero.
    pub open spec fn is_default(&self) -> bool {
        &&& self.node_a_weight == 0
        &&& self.node_b_weight == 0
        &&& self.node_c_weight == 0
        &&& self.node_d_weight == 0
    }
}

impl Default for NodeWeights {
    fn default() -> (r: Self)
        ensures
            r.is_default(),
    {
        NodeWeights { node_a_weight: 0, node_b_weight: 0, node_c_weight: 0, node_d_weight: 0 }
    }
}

/// Door state and operating mode.
#[derive(Debug, Clone)]
pub struct Status {
    pub front_door_status: String,
    pub system_status: SystemStatus,
}

impl Status {
    /// Door state empty, mode `StopSystem`.
    pub open spec fn is_default(&self) -> bool {
        &&& is_blank(self.front_door_status)
        &&& self.system_status == SystemStatus::StopSystem
    }

    /// A copy equal to `self`.
    pub fn snapshot(&self) -> (r: Self)
        ensures
            r == *self,
    {
        Status {
            front_door_status: self.front_door_status.clone(),
            system_status: self.system_status,
        }
    }
}

impl Default for Status {
    fn default() -> (r: Self)
        ensures
            r.is_default(),
    {
        Status { front_door_status: String::new(), system_status: SystemStatus::StopSystem }
    }
}

/// The four cleaning and maintenance flags.
#[derive(Debug, Clone)]
pub struct SystemCleaningMaintenance {
    pub bag_management: String,
    pub clean_mode: String,
    pub front_door_control: String,
    pub side_door_control: String,
}

impl SystemCleaningMaintenance {
    /// Every flag empty.
    pub open spec fn is_default(&self) -> bool {
        &&& is_blank(self.bag_management)
        &&& is_blank(self.clean_mode)
        &&& is_blank(self.front_door_control)
        &&& is_blank(self.side_door_control)
    }

    /// A copy equal to `self`.
    pub fn snapshot(&self) -> (r: Self)
        ensures
            r == *self,
    {
        SystemCleaningMaintenance {
            bag_management: self.bag_management.clone(),
            clean_mode: self.clean_mode.clone(),
            front_door_control: self.front_door_control.clone(),
            side_door_control: self.side_door_control.clone(),
        }
    }
}

impl Default for SystemCleaningMaintenance {
    fn default() -> (r: Self)
        ensures
            r.is_default(),
    {
        SystemCleaningMaintenance {
            bag_management: String::new(),
            clean_mode: String::new(),
            front_door_control: String::new(),
            side_door_control: String::new(),
        }
    }
}

/// One step of the setup wizard.
#[derive(Debug, Clone)]
pub struct StepDetails {
    pub confirm_configuration: String,
    pub load_detect: bool,
    pub position: i32,
    pub status: bool,
    pub step_description: String,
    pub step_id: String,
    pub step_tutorial: String,
    pub title: String,
    pub visible_check: bool,
}

impl StepDetails {
    /// Every string empty, every flag false, position zero.
    pub open spec fn is_default(&self) -> bool {
        &&& is_blank(self.confirm_configuration)
        &&& !self.load_detect
        &&& self.position == 0
        &&& !self.status
        &&& is_blank(self.step_description)
        &&& is_blank(self.step_id)
        &&& is_blank(self.step_tutorial)
        &&& is_blank(self.title)
        &&& !self.visible_check
    }

    /// A copy equal to `self`.
    pub fn snapshot(&self) -> (r: Self)
        ensures
            r == *self,
    {
        StepDetails {
            confirm_configuration: self.confirm_configuration.clone(),
            load_detect: self.load_detect,
            position: self.position,
            status: self.status,
            step_description: self.step_description.clone(),
            step_id: self.step_id.clone(),
            step_tutorial: self.step_tutorial.clone(),
            title: self.title.clone(),
            visible_check: self.visible_check,
        }
    }
}

impl Default for StepDetails {
    fn default() -> (r: Self)
        ensures
            r.is_default(),
    {
        StepDetails {
            confirm_configuration: String::new(),
            load_detect: false,
            position: 0,
            status: false,
            step_description: String::new(),
            step_id: String::new(),
            step_tutorial: String::new(),
            title: String::new(),
            visible_check: false,
        }
    }
}

/// The six steps of the setup wizard.
#[derive(Debug, Clone)]
pub struct JobSetupStep {
    pub bag_feeder: StepDetails,
    pub conveyors: StepDetails,
    pub conveyor_lids: StepDetails,
    pub remove_all_ingredient_sliders: StepDetails,
    pub take_system_photo: StepDetails,
    pub tunnels: StepDetails,
}

impl JobSetupStep {
    /// Every step at its default.
    pub open spec fn is_default(&self) -> bool {
        &&& self.bag_feeder.is_default()
        &&& self.conveyors.is_default()
        &&& self.conveyor_lids.is_default()
        &&& self.remove_all_ingredient_sliders.is_default()
        &&& self.take_system_photo.is_default()
        &&& self.tunnels.is_default()
    }

    /// A copy equal to `self`.
    pub fn snapshot(&self) -> (r: Self)
        ensures
            r == *self,
    {
        JobSetupStep {
            bag_feeder: self.bag_feeder.snapshot(),
            conveyors: self.conveyors.snapshot(),
            conveyor_lids: self.conveyor_lids.snapshot(),
            remove_all_ingredient_sliders: self.remove_all_ingredient_sliders.snapshot(),
            take_system_photo: self.take_system_photo.snapshot(),
            tunnels: self.tunnels.snapshot(),
        }
    }
}

impl Default for JobSetupStep {
    fn default() -> (r: Self)
        ensures
            r.is_default(),
    {
        JobSetupStep {
            bag_feeder: StepDetails::default(),
            conveyors: StepDetails::default(),
            conveyor_lids: StepDetails::default(),
            remove_all_ingredient_sliders: StepDetails::default(),
            take_system_photo: StepDetails::default(),
            tunnels: StepDetails::default(),
        }
    }
}

/// The whole state document of the machine.
#[derive(Debug, Clone)]
pub struct RyoState {
    pub job_progress: usize,
    pub job_qty: usize,
    pub node_levels: NodeLevels,
    pub node_weights: NodeWeights,
    pub status: Status,
    pub system_cleaning_maintenance: SystemCleaningMaintenance,
    pub job_setup_step: JobSetupStep,
}

impl RyoState {
    /// Counters zero and every sub-document at its default.
    pub open spec fn is_default(&self) -> bool {
        &&& self.job_progress == 0
        &&& self.job_qty == 0
        &&& self.node_levels.is_default()
        &&& self.node_weights.is_default()
        &&& self.status.is_default()
        &&& self.system_cleaning_maintenance.is_default()
        &&& self.job_setup_step.is_default()
    }

    /// A point-in-time copy equal to `self`.
    pub fn snapshot(&self) -> (r: Self)
        ensures
            r == *self,
    {
        RyoState {
            job_progress: self.job_progress,
            job_qty: self.job_qty,
            node_levels: self.node_levels.snapshot(),
            node_weights: self.node_weights,
            status: self.status.snapshot(),
            system_cleaning_maintenance: self.system_cleaning_maintenance.snapshot(),
            job_setup_step: self.job_setup_step.snapshot(),
        }
    }
}

impl Default for RyoState {
    fn default() -> (r: Self)
        ensures
            r.is_default(),
    {
        RyoState {
            job_progress: 0,
            job_qty: 0,
            node_levels: NodeLevels::default(),
            node_weights: NodeWeights::default(),
            status: Status::default(),
            system_cleaning_maintenance: SystemCleaningMaintenance::default(),
            job_setup_step: JobSetupStep::default(),
        }
    }
}

} // verus!
