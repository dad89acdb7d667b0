//! The API document that GET /api/v1/discovery hands to clients: what the
//! API is, how to authenticate, the usual workflows, and each endpoint.

use vstd::prelude::*;

verus! {

/// A free-form part of the document: a text, a list, or named parts.
#[derive(Debug)]
pub enum DocValue {
    Text(String),
    List(Vec<DocValue>),
    Parts(Vec<(String, DocValue)>),
}

/// An endpoint: its name, HTTP method and path, and further details (its
/// body, response, notes) as named parts.
#[derive(Debug)]
pub struct Endpoint {
    pub name: String,
    pub method: String,
    pub path: String,
    pub details: Vec<(String, DocValue)>,
}

/// A workflow: its name, its steps in order, and further notes.
#[derive(Debug)]
pub struct Workflow {
    pub name: String,
    pub steps: Vec<String>,
    pub details: Vec<(String, DocValue)>,
}

/// The whole API document.
#[derive(Debug)]
pub struct DiscoveryDoc {
    pub api_name: String,
    pub version: String,
    pub base_url: String,
    pub instructions: String,
    pub design_principles: Vec<(String, DocValue)>,
    pub auth_type: String,
    pub auth_header: String,
    pub workflows: Vec<Workflow>,
    pub endpoints: Vec<Endpoint>,
    pub types: Vec<(String, DocValue)>,
    pub errors: Vec<(String, String)>,
}

/// The endpoints the document lists, in order: name, method and path.
pub open spec fn discovery_routes() -> Seq<(Seq<char>, Seq<char>, Seq<char>)> {
    seq![
        ("create_task"@, "POST"@, "/client/tasks"@),
        ("list_tasks"@, "GET"@, "/client/tasks?status=&service_id=&limit=20&offset=0"@),
        ("get_task"@, "GET"@, "/client/tasks/{id}"@),
        ("cancel_task"@, "POST"@, "/client/tasks/{id}/cancel"@),
        ("register"@, "POST"@, "/client/auth/register"@),
        ("list_services"@, "GET"@, "/client/services"@),
        ("get_service_usage"@, "GET"@, "/client/services/{id}/usage"@),
        ("download_file"@, "GET"@, "/client/files/{id}/download"@),
        ("list_files"@, "GET"@, "/client/files/list/{task_id}"@),
        ("update_profile"@, "PUT"@, "/client/profile"@),
    ]
}

/// The names of the endpoints the document lists, in order.
pub open spec fn discovery_endpoint_names() -> Seq<Seq<char>> {
    discovery_routes().map_values(|r: (Seq<char>, Seq<char>, Seq<char>)| r.0)
}

/// The name, method and path of each endpoint.
pub open spec fn endpoint_routes(eps: Seq<Endpoint>) -> Seq<(Seq<char>, Seq<char>, Seq<char>)> {
    eps.map_values(|e: Endpoint| (e.name@, e.method@, e.path@))
}

/// The name of each endpoint.
pub open spec fn endpoint_names(eps: Seq<Endpoint>) -> Seq<Seq<char>> {
    eps.map_values(|e: Endpoint| e.name@)
}

/// The name of each workflow.
pub open spec fn workflow_names(ws: Seq<Workflow>) -> Seq<Seq<char>> {
    ws.map_values(|w: Workflow| w.name@)
}

/// The error codes the document explains, with their explanation.
pub open spec fn discovery_errors() -> Seq<(Seq<char>, Seq<char>)> {
    seq![
        ("400"@, "请求参数错误"@),
        ("401"@, "认证失败"@),
        ("404"@, "资源不存在"@),
        ("409"@, "状态冲突"@),
    ]
}

/// The texts of each pair.
pub open spec fn pair_texts(ps: Seq<(String, String)>) -> Seq<(Seq<char>, Seq<char>)> {
    ps.map_values(|p: (String, String)| (p.0@, p.1@))
}

fn text(s: &str) -> (res: DocValue)
    ensures
        res matches DocValue::Text(t) && t@ == s@,
{
    DocValue::Text(String::from_str(s))
}

fn part(key: &str, value: DocValue) -> (res: (String, DocValue))
    ensures
        res.0@ == key@ && res.1 == value,
{
    (String::from_str(key), value)
}

fn text_part(key: &str, value: &str) -> (res: (String, DocValue))
    ensures
        res.0@ == key@,
{
    part(key, text(value))
}

/// Named texts, in order.
fn text_parts(items: Vec<(&str, &str)>) -> (res: Vec<(String, DocValue)>)
    ensures
        res@.len() == items@.len(),
{
    let mut res: Vec<(String, DocValue)> = Vec::new();
    let mut i: usize = 0;
    while i < items.len()
        invariant
            i <= items@.len(),
            res@.len() == i,
        decreases items@.len() - i,
    {
        let (k, v) = items[i];
        res.push(text_part(k, v));
        i = i + 1;
    }
    res
}

/// The texts, in order.
fn strings(items: Vec<&str>) -> (res: Vec<String>)
    ensures
        res@.len() == items@.len(),
        forall|i: int| 0 <= i < items@.len() ==> #[trigger] res@[i]@ == items@[i]@,
{
    let mut res: Vec<String> = Vec::new();
    let mut i: usize = 0;
    while i < items.len()
        invariant
            i <= items@.len(),
            res@.len() == i,
            forall|j: int| 0 <= j < i ==> #[trigger] res@[j]@ == items@[j]@,
        decreases items@.len() - i,
    {
        res.push(String::from_str(items[i]));
        i = i + 1;
    }
    res
}

fn endpoint(name: &str, method: &str, path: &str, details: Vec<(String, DocValue)>) -> (res: Endpoint)
    ensures
        res.name@ == name@,
        res.method@ == method@,
        res.path@ == path@,
{
    Endpoint {
        name: String::from_str(name),
        method: String::from_str(method),
        path: String::from_str(path),
        details,
    }
}

fn service_list_item_fields(description: &str) -> Vec<(String, DocValue)> {
    text_parts(
        vec![
            ("id", "string"),
            ("name", "string"),
            ("description", description),
            ("agent_status", "online|offline|busy"),
            ("registration_status", "string - 注册状态"),
            ("agent_last_heartbeat", "string|null - 最后心跳时间"),
            ("access_type", "public|restricted"),
            ("has_permission", "true|false"),
        ],
    )
}

fn service_usage_fields() -> Vec<(String, DocValue)> {
    text_parts(vec![("id", "string"), ("name", "string"), ("usage", "string - 服务使用说明/用法")])
}

fn task_input_fields() -> Vec<(String, DocValue)> {
    vec![
        text_part("task_prompt", "string"),
        text_part("output_prompt", "string"),
        part("input_files", DocValue::List(vec![text("string")])),
    ]
}

fn workflows() -> (res: Vec<Workflow>)
    ensures
        workflow_names(res@) == seq!["client_register"@, "submit_task"@],
{
    let register = Workflow {
        name: String::from_str("client_register"),
        steps: strings(
            vec![
                "1. POST /client/auth/register - 注册获取 API Key",
                "2. 保存返回的 api_key，用于后续请求认证",
                "3. 建议在调用方项目目录写入 .env，例如 OPEN_AAAS_API_KEY={api_key}",
                "4. GET /client/services - 获取轻量服务列表浏览可用服务",
                "5. GET /client/services/{id}/usage - 按需获取目标服务的详细 usage",
                "6. 如需使用受限服务，联系管理员授权",
            ],
        ),
        details: text_parts(
            vec![
                ("env_example", "OPEN_AAAS_API_KEY={api_key}"),
                ("note", "这里的 .env 是调用 OpenAaaS API 的 client 项目配置，和 server、agent-core 的部署配置无关。"),
            ],
        ),
    };
    let submit = Workflow {
        name: String::from_str("submit_task"),
        steps: strings(
            vec![
                "1. GET /client/services - 获取轻量服务列表（name/description/agent_status），浏览筛选候选",
                "2. GET /client/services/{id}/usage - 对筛选出的候选服务，按需获取详细 usage（能力范围、调用规范）",
                "3. 根据 usage 说明，构造正确的 task_prompt 和 output_prompt",
                "4. POST /client/tasks - 创建任务（支持 application/json 和 multipart/form-data。JSON 方式不支持附件，如需上传文件请使用 multipart）",
                "5. 保存返回的 task_id，任务在后台异步执行",
                "6. 使用 Dashboard 查看进度，或稍后主动查询任务状态",
                "7. GET /client/files/list/{task_id} - 获取结果文件列表",
                "8. GET /client/files/{id}/download - 下载结果",
            ],
        ),
        details: text_parts(
            vec![
                ("note", "任务执行时间从几分钟到几小时不等，提交后立即返回。**请勿轮询**。推荐使用 Dashboard 实时监控，或任务完成后再查询结果。"),
            ],
        ),
    };
    let res = vec![register, submit];
    assert(workflow_names(res@) =~= seq!["client_register"@, "submit_task"@]);
    res
}

fn endpoints() -> (res: Vec<Endpoint>)
    ensures
        endpoint_routes(res@) == discovery_routes(),
{
    let create_task = endpoint(
        "create_task",
        "POST",
        "/client/tasks",
        vec![
            text_part("content_type", "application/json 或 multipart/form-data"),
            part(
                "body",
                DocValue::Parts(
                    text_parts(
                        vec![
                            ("service_id", "string (必需) - 服务ID"),
                            ("task_prompt", "string (必需) - 任务描述"),
                            ("output_prompt", "string (必需) - 输出格式要求"),
                            ("session_id", "string (可选) - 会话ID"),
                            ("files", "binary (仅 multipart 支持，可选，可多个) - 输入文件"),
                        ],
                    ),
                ),
            ),
            part(
                "response",
                DocValue::Parts(
                    vec![
                        text_part("id", "string"),
                        text_part("status", "pending"),
                        part("input", DocValue::Parts(task_input_fields())),
                        text_part("created_at", "ISO8601"),
                    ],
                ),
            ),
        ],
    );
    let list_tasks = endpoint(
        "list_tasks",
        "GET",
        "/client/tasks?status=&service_id=&limit=20&offset=0",
        Vec::new(),
    );
    let get_task = endpoint("get_task", "GET", "/client/tasks/{id}", Vec::new());
    let cancel_task = endpoint(
        "cancel_task",
        "POST",
        "/client/tasks/{id}/cancel",
        vec![text_part("limitation", "只能取消pending或running状态")],
    );
    let register = endpoint(
        "register",
        "POST",
        "/client/auth/register",
        vec![
            part(
                "body",
                DocValue::Parts(text_parts(vec![("name", "string (必需) - Client 名称，1-64字符，trim后不能为空")])),
            ),
            part(
                "response",
                DocValue::Parts(
                    text_parts(
                        vec![
                            ("api_key", "string - 保存好，后续请求需要使用"),
                            ("id", "string - Client ID"),
                        ],
                    ),
                ),
            ),
            text_part("note", "无需认证，首次调用生成 API Key"),
        ],
    );
    let list_services = endpoint(
        "list_services",
        "GET",
        "/client/services",
        vec![
            part(
                "response",
                DocValue::Parts(
                    vec![part("services", DocValue::List(vec![DocValue::Parts(service_list_item_fields("string|null"))]))],
                ),
            ),
            text_part(
                "note",
                "返回轻量列表（不含 usage 长文本），用于快速浏览和筛选服务。如需了解服务详细能力，请使用 get_service_usage 按需获取。public 服务自动可用；restricted 服务需要 has_permission=true 才能使用。",
            ),
        ],
    );
    let get_service_usage = endpoint(
        "get_service_usage",
        "GET",
        "/client/services/{id}/usage",
        vec![
            part("response", DocValue::Parts(service_usage_fields())),
            text_part(
                "note",
                "渐进式披露的关键步骤：在 list_services 筛选出候选服务后，调用此接口获取目标服务的详细 usage（能力范围、调用规范、返回格式、限制条件）。usage 内容通常较长，只应在确定使用该服务时获取，避免占用上下文。",
            ),
        ],
    );
    let download_file = endpoint("download_file", "GET", "/client/files/{id}/download", Vec::new());
    let list_files = endpoint("list_files", "GET", "/client/files/list/{task_id}", Vec::new());
    let update_profile = endpoint(
        "update_profile",
        "PUT",
        "/client/profile",
        vec![
            part("body", DocValue::Parts(text_parts(vec![("name", "string (必需) - 新用户名")]))),
            part(
                "response",
                DocValue::Parts(
                    text_parts(
                        vec![
                            ("id", "string"),
                            ("name", "string"),
                            ("api_key", "string (空 - 请从注册响应中保存)"),
                            ("role", "string"),
                            ("created_at", "ISO8601"),
                        ],
                    ),
                ),
            ),
        ],
    );
    let res = vec![
        create_task,
        list_tasks,
        get_task,
        cancel_task,
        register,
        list_services,
        get_service_usage,
        download_file,
        list_files,
        update_profile,
    ];
    assert(endpoint_routes(res@) =~= discovery_routes());
    res
}

fn errors() -> (res: Vec<(String, String)>)
    ensures
        pair_texts(res@) == discovery_errors(),
{
    let res = vec![
        (String::from_str("400"), String::from_str("请求参数错误")),
        (String::from_str("401"), String::from_str("认证失败")),
        (String::from_str("404"), String::from_str("资源不存在")),
        (String::from_str("409"), String::from_str("状态冲突")),
    ];
    assert(pair_texts(res@) =~= discovery_errors());
    res
}

/// GET /api/v1/discovery: the API document of server version `version`. It
/// needs no authentication. It names the API "OpenAaaS" at base URL
/// "/api/v1", authenticates with bearer API keys, describes the client
/// registration and task submission workflows, and lists the endpoints of
/// `discovery_routes` with the errors of `discovery_errors`.
pub fn discovery_document(version: &str) -> (res: DiscoveryDoc)
    ensures
        res.api_name@ == "OpenAaaS"@,
        res.version@ == version@,
        res.base_url@ == "/api/v1"@,
        res.auth_type@ == "bearer"@,
        res.auth_header@ == "Authorization: Bearer {api_key}"@,
        workflow_names(res.workflows@) == seq!["client_register"@, "submit_task"@],
        endpoint_routes(res.endpoints@) == discovery_routes(),
        endpoint_names(res.endpoints@) == discovery_endpoint_names(),
        pair_texts(res.errors@) == discovery_errors(),
{
    let eps = endpoints();
    assert(endpoint_names(eps@) =~= discovery_endpoint_names()) by {
        assert forall|i: int| 0 <= i < eps@.len() implies #[trigger] endpoint_names(eps@)[i]
            == discovery_endpoint_names()[i] by {
            assert(endpoint_routes(eps@)[i] == discovery_routes()[i]);
        }
    }
    DiscoveryDoc {
        api_name: String::from_str("OpenAaaS"),
        version: String::from_str(version),
        base_url: String::from_str("/api/v1"),
        instructions: String::from_str(
            "你是一个 OpenAaaS 客户端代理。你的工作流程是：\n\n1. **认证**：如果用户没有 api_key，调用 register 获取并保存\n2. **浏览服务**：调用 list_services 获取轻量服务列表（id, name, description, agent_status）\n3. **了解服务**：对候选服务调用 get_service_usage 获取详细用法说明\n4. **提交任务**：根据 usage 说明构造 task_prompt 和 output_prompt，调用 submit_task\n5. **跟踪结果**：保存返回的 task_id。需要结果时调用 get_task 查询状态，或用 list_files + download_file 获取结果\n\n重要原则：\n- 遵循渐进式披露：先 list_services 筛选，再 get_service_usage 获取详情，避免一次性加载大量长文本\n- public 服务自动可用；restricted 服务需要 has_permission=true\n- 任务异步执行，提交后立即返回，不要立即阻塞轮询，待用户需要时再调用 get_task 查询状态\n- submit_task 使用 multipart/form-data，可附带文件",
        ),
        design_principles: text_parts(
            vec![
                (
                    "progressive_disclosure",
                    "信息渐进式披露：API 设计遵循'先摘要筛选，再按需详情'的原则。list_services 返回轻量列表（name + description + status），不占用上下文；get_service_usage 按需获取单个服务的详细用法说明。调用方应先浏览列表筛选候选，再对目标服务获取 usage，避免一次性加载大量长文本。",
                ),
            ],
        ),
        auth_type: String::from_str("bearer"),
        auth_header: String::from_str("Authorization: Bearer {api_key}"),
        workflows: workflows(),
        endpoints: eps,
        types: vec![
            part("ServiceListItem", DocValue::Parts(service_list_item_fields("string"))),
            part("ServiceUsage", DocValue::Parts(service_usage_fields())),
            part("TaskInput", DocValue::Parts(task_input_fields())),
        ],
        errors: errors(),
    }
}

} // verus!
