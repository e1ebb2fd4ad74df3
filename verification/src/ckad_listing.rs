//! What the catalog holds, category by category: the names and the texts of
//! every entry, as sequences of characters.

use crate::ckad_data::{CategoryView, ConceptView};
use vstd::prelude::*;

verus! {

/// The whole catalog: its categories in the order in which they are shown.
pub open spec fn ckad_listing() -> Seq<CategoryView> {
    seq![
        quick_start(),
        pods_and_deployments(),
        secrets_and_configmaps(),
        debugging_and_inspection(),
        jobs_and_cronjobs(),
        helm(),
        probes_and_health_checks(),
        deployments_and_rollouts(),
        security_and_rbac(),
        services_and_networking(),
        storage(),
        init_containers_and_sidecars(),
        resource_management(),
        labels_and_annotations(),
        container_tools(),
        kubectl_explain(),
        advanced_exam_patterns(),
        time_saving_aliases(),
    ]
}

/// The category "Quick Start & Context".
pub open spec fn quick_start() -> CategoryView {
    CategoryView {
        name: "🚀 Quick Start & Context"@,
        concepts: seq![
            ConceptView {
                title: "Set namespace for current context"@,
                command: "k config set-context --current --namespace NAMESPACE"@,
                description: Some("⚡ EXAM TIP: Set this early to avoid typing -n on every command!"@),
            },
            ConceptView {
                title: "Deploy resource from manifest"@,
                command: "k apply -f manifest.yaml -n NAMESPACE"@,
                description: None,
            },
            ConceptView {
                title: "Validate YAML before applying"@,
                command: "k apply -f app.yaml --dry-run=client"@,
                description: Some("Check for errors without creating resources"@),
            },
            ConceptView {
                title: "Apply all manifests in directory"@,
                command: "k apply -f /path/to/manifests/"@,
                description: Some("Useful for multi-file deployments"@),
            },
        ],
    }
}

/// The category "Pods & Deployments".
pub open spec fn pods_and_deployments() -> CategoryView {
    CategoryView {
        name: "📦 Pods & Deployments"@,
        concepts: seq![
            ConceptView {
                title: "Create pod manifest with labels"@,
                command: "k run random-pod --image=nginx:alpine --labels='id=awesome-pod' --dry-run=client -oyaml > pod.yaml"@,
                description: Some("⚡ EXAM TIP: Always use --dry-run=client -oyaml for manifests"@),
            },
            ConceptView {
                title: "Create deployment manifest"@,
                command: "k create deployment random-deployment --image=nginx:alpine --replicas=3 --dry-run=client -oyaml > deployment.yaml"@,
                description: Some("Creates deployment with 3 replicas"@),
            },
            ConceptView {
                title: "Create deployment with env vars"@,
                command: "k create deploy envtest --image=nginx --env APP_ENV=prod --env LOG_LEVEL=debug"@,
                description: Some("Quickly add environment variables"@),
            },
            ConceptView {
                title: "Add label to existing deployment"@,
                command: "k label deployment random-deployment id=awesome-deployment"@,
                description: None,
            },
            ConceptView {
                title: "Update deployment image"@,
                command: "k set image deployment/api-deploy httpd=httpd:2.4.58"@,
                description: Some("⚡ Fast way to update image in exam"@),
            },
            ConceptView {
                title: "Scale deployment"@,
                command: "k scale deployment/myapp --replicas=5"@,
                description: None,
            },
            ConceptView {
                title: "Quick edit running resource"@,
                command: (r#"k edit deploy NAME
k edit pod NAME
k edit svc NAME"#)@,
                description: Some("Opens resource in $EDITOR (usually vi)"@),
            },
            ConceptView {
                title: "Get deployment with wide output"@,
                command: "k get deploy -o wide"@,
                description: Some("Shows additional columns like images, selectors"@),
            },
        ],
    }
}

/// The category "Secrets & ConfigMaps".
pub open spec fn secrets_and_configmaps() -> CategoryView {
    CategoryView {
        name: "🔐 Secrets & ConfigMaps"@,
        concepts: seq![
            ConceptView {
                title: "Create secret from literals"@,
                command: "k create secret generic SECRET_NAME --from-literal=KEY1=VALUE1 --from-literal=KEY2=VALUE2"@,
                description: None,
            },
            ConceptView {
                title: "Create secret from file"@,
                command: "k create secret generic db-secret --from-file=./password.txt"@,
                description: None,
            },
            ConceptView {
                title: "Base64 encode for secrets"@,
                command: "echo -n 'mypassword' | base64"@,
                description: Some("Get base64 value for manual secret creation"@),
            },
            ConceptView {
                title: "Map secret to env vars"@,
                command: (r#"env:
  - name: SECRET_USERNAME
    valueFrom:
      secretKeyRef:
        name: mysecret
        key: username
  - name: SECRET_PASSWORD
    valueFrom:
      secretKeyRef:
        name: mysecret
        key: password"#)@,
                description: Some("⚡ EXAM TIP: Common pattern - replace hardcoded env with secrets"@),
            },
            ConceptView {
                title: "Load all secret keys as env vars"@,
                command: "k set env deploy/myapp --from=secret/db-pass"@,
                description: Some("Imports all keys from secret as environment variables"@),
            },
            ConceptView {
                title: "Mount secret as volume"@,
                command: (r#"spec:
  volumes:
  - name: secret-volume
    secret:
      secretName: my-secret
  containers:
  - name: container
    volumeMounts:
    - name: secret-volume
      mountPath: /tmp/secret"#)@,
                description: Some("Secret appears as files in /tmp/secret"@),
            },
            ConceptView {
                title: "Create configmap from literals"@,
                command: "k create cm my-config --from-literal=key1=value1 --from-literal=key2=value2"@,
                description: None,
            },
            ConceptView {
                title: "Create configmap from file"@,
                command: "k create cm app-config --from-file=KEY=/opt/data/config.txt"@,
                description: None,
            },
            ConceptView {
                title: "Create configmap with custom key name"@,
                command: "k create configmap CM_NAME --from-file=index.html=/opt/course/file.html"@,
                description: Some("File content stored under custom key 'index.html'"@),
            },
            ConceptView {
                title: "Get decoded ServiceAccount token"@,
                command: "k -n NAMESPACE describe secret SECRET_NAME"@,
                description: Some("Shows decoded token and CA certificate"@),
            },
        ],
    }
}

/// The category "Debugging & Inspection".
pub open spec fn debugging_and_inspection() -> CategoryView {
    CategoryView {
        name: "🔍 Debugging & Inspection"@,
        concepts: seq![
            ConceptView {
                title: "Get pod IPs and node placement"@,
                command: "k get po -o wide"@,
                description: Some("Shows IP, NODE, NOMINATED NODE, READINESS GATES"@),
            },
            ConceptView {
                title: "Create temp debug pod"@,
                command: (r#"k run debug --rm -it --image=nginx:alpine -- sh
# curl http://service
        OR
# curl 10.244.1.5:80"#)@,
                description: Some("⚡ EXAM TIP: Quick way to test connectivity, --rm auto-deletes"@),
            },
            ConceptView {
                title: "Debug with busybox"@,
                command: "k run tmp --rm -it --image=busybox -- sh"@,
                description: Some("Lightweight container for testing"@),
            },
            ConceptView {
                title: "Debug with curl"@,
                command: "k run tmp --rm -it --image=alpine/curl -- sh"@,
                description: Some("Has curl pre-installed for API testing"@),
            },
            ConceptView {
                title: "Explain resource fields"@,
                command: (r#"k explain pvc
k explain pvc.spec"#)@,
                description: Some("⚡ EXAM TIP: Your best friend for discovering field names!"@),
            },
            ConceptView {
                title: "Recursive explain (show all fields)"@,
                command: (r#"k explain pod.spec --recursive
k explain pod.spec --recursive | grep -i volume"#)@,
                description: Some("Search for specific fields in nested structures"@),
            },
            ConceptView {
                title: "Find field paths quickly"@,
                command: (r#"k explain deploy.spec --recursive | grep -i replicas
k explain pod.spec.containers --recursive | grep -i probe
k explain pod.spec --recursive | grep -i serviceAccount"#)@,
                description: Some("Grep to find exact field location"@),
            },
            ConceptView {
                title: "Check container logs"@,
                command: "k logs POD_NAME -c CONTAINER_NAME"@,
                description: Some("Specify container for multi-container pods"@),
            },
            ConceptView {
                title: "Follow logs in real-time"@,
                command: "k logs -f POD_NAME"@,
                description: Some("Stream logs (like tail -f)"@),
            },
            ConceptView {
                title: "Previous container logs"@,
                command: "k logs POD_NAME --previous"@,
                description: Some("View logs from crashed container"@),
            },
            ConceptView {
                title: "Execute command in pod"@,
                command: (r#"k exec POD_NAME -- ls /
k exec -it POD_NAME -- sh"#)@,
                description: Some("-it for interactive shell"@),
            },
            ConceptView {
                title: "Attach to running container"@,
                command: "k attach POD_NAME -c CONTAINER"@,
                description: Some("Attach to stdout/stdin of running process"@),
            },
            ConceptView {
                title: "Copy files to/from pod"@,
                command: (r#"k cp ./local-file POD:/tmp/file
k cp POD:/var/log/app.log ./app.log"#)@,
                description: Some("Transfer files for debugging"@),
            },
            ConceptView {
                title: "Port forward to pod"@,
                command: (r#"k port-forward pod/POD 8080:80
k port-forward svc/SVC 8080:80"#)@,
                description: Some("Access pod/service from localhost:8080"@),
            },
            ConceptView {
                title: "Debug with ephemeral container"@,
                command: "k debug -it pod/broken --image=busybox --target=broken -- /bin/sh"@,
                description: Some("⚡ EXAM TIP: Debug CrashLoopBackOff pods without restart"@),
            },
            ConceptView {
                title: "Get pod status with jsonpath"@,
                command: (r#"k get pod POD_NAME -o jsonpath="{.status.phase}""#)@,
                description: Some("Extract specific fields programmatically"@),
            },
            ConceptView {
                title: "Get container images"@,
                command: (r#"k get pod POD -o jsonpath='{.spec.containers[*].image}'"#)@,
                description: None,
            },
            ConceptView {
                title: "Get pod status with describe"@,
                command: "k describe pod POD_NAME | grep -i status:"@,
                description: None,
            },
            ConceptView {
                title: "Search in all pod YAMLs"@,
                command: "k -n NAMESPACE get pod -o yaml | grep SEARCH_TEXT -A10"@,
                description: Some("Search across all pods in namespace"@),
            },
            ConceptView {
                title: "Filter events by pod"@,
                command: "k get events --field-selector involvedObject.name=POD"@,
                description: Some("See only events related to specific pod"@),
            },
            ConceptView {
                title: "Watch resources in real-time"@,
                command: (r#"k get po -w
k get deploy -w"#)@,
                description: Some("Live updates as resources change"@),
            },
            ConceptView {
                title: "Get resource usage (requires metrics-server)"@,
                command: (r#"k top pod
k top node"#)@,
                description: Some("Show CPU/memory usage"@),
            },
        ],
    }
}

/// The category "Jobs & CronJobs".
pub open spec fn jobs_and_cronjobs() -> CategoryView {
    CategoryView {
        name: "⚙️ Jobs & CronJobs"@,
        concepts: seq![
            ConceptView {
                title: "Create job manifest"@,
                command: (r#"k create job JOB_NAME --image=busybox:1.31.0 --dry-run=client -oyaml -- sh -c "sleep 2 && echo done" > job.yaml"#)@,
                description: None,
            },
            ConceptView {
                title: "Create cronjob manifest"@,
                command: (r#"k create cronjob my-cronjob --image=busybox:1.31.0 --schedule="*/5 * * * *" --dry-run=client -oyaml -- sh -c "sleep 2 && echo done" > cronjob.yaml"#)@,
                description: Some("Runs every 5 minutes"@),
            },
            ConceptView {
                title: "Manually trigger job from cronjob"@,
                command: "k create job my-job --from=cronjob/my-cronjob"@,
                description: Some("⚡ EXAM TIP: Test cronjobs without waiting for schedule"@),
            },
            ConceptView {
                title: "Job with completions and parallelism"@,
                command: (r#"spec:
  completions: 3
  parallelism: 2
  template:
    metadata:
      labels:
        id: awesome-job
    spec:
      containers:
      - command:
        - sh
        - -c
        - sleep 2 && echo done
        image: busybox:1.31.0
        name: job-container
      restartPolicy: Never"#)@,
                description: Some("Run 3 completions with max 2 parallel pods"@),
            },
            ConceptView {
                title: "CronJob with completions/parallelism"@,
                command: (r#"apiVersion: batch/v1
kind: CronJob
metadata:
  name: my-cronjob
spec:
  schedule: "*/5 * * * *"
  jobTemplate:
    spec:
      completions: 3
      parallelism: 2
      template:
        metadata:
          labels:
            id: awesome-job
        spec:
          containers:
          - name: container
            image: busybox:1.31.0
            command:
            - sh
            - -c
            - sleep 2 && echo done
          restartPolicy: Never"#)@,
                description: Some("Complete CronJob with parallelism and labels"@),
            },
            ConceptView {
                title: "Delete completed jobs"@,
                command: "k delete pod --field-selector=status.phase==Succeeded"@,
                description: Some("Clean up completed job pods"@),
            },
        ],
    }
}

/// The category "Helm".
pub open spec fn helm() -> CategoryView {
    CategoryView {
        name: "🎩 Helm"@,
        concepts: seq![
            ConceptView {
                title: "List releases in namespace"@,
                command: (r#"helm -n NAMESPACE ls
helm -n NAMESPACE ls -a    # includes pending-install states"#)@,
                description: None,
            },
            ConceptView {
                title: "Uninstall release"@,
                command: "helm -n NAMESPACE uninstall RELEASE_NAME"@,
                description: None,
            },
            ConceptView {
                title: "Update repos and search charts"@,
                command: (r#"helm repo update
helm search repo nginx --versions"#)@,
                description: None,
            },
            ConceptView {
                title: "Upgrade release"@,
                command: "helm -n NAMESPACE upgrade RELEASE_NAME REPO/CHART"@,
                description: None,
            },
            ConceptView {
                title: "Show chart values"@,
                command: "helm show values REPO/CHART"@,
                description: Some("See all configurable values for a chart"@),
            },
            ConceptView {
                title: "Install with custom values"@,
                command: "helm -n NAMESPACE install RELEASE_NAME REPO/CHART --set replicaCount=2 --set image.debug=true"@,
                description: Some("Override default chart values"@),
            },
            ConceptView {
                title: "Install with values file"@,
                command: "helm install RELEASE CHART -f values.yaml"@,
                description: None,
            },
        ],
    }
}

/// The category "Probes & Health Checks".
pub open spec fn probes_and_health_checks() -> CategoryView {
    CategoryView {
        name: "❤️ Probes & Health Checks"@,
        concepts: seq![
            ConceptView {
                title: "Readiness probe - exec command"@,
                command: (r#"readinessProbe:
  exec:
    command:
    - sh
    - -c
    - cat /tmp/ready
  initialDelaySeconds: 5
  periodSeconds: 10"#)@,
                description: Some("Container ready when command exits 0"@),
            },
            ConceptView {
                title: "Readiness probe - HTTP GET"@,
                command: (r#"readinessProbe:
  httpGet:
    path: /healthz
    port: 8080
  initialDelaySeconds: 5
  periodSeconds: 10"#)@,
                description: Some("Check HTTP endpoint for readiness"@),
            },
            ConceptView {
                title: "Liveness probe - TCP socket"@,
                command: (r#"livenessProbe:
  tcpSocket:
    port: 80
  initialDelaySeconds: 10
  periodSeconds: 15"#)@,
                description: Some("Restart container if TCP connection fails"@),
            },
            ConceptView {
                title: "Liveness probe - HTTP"@,
                command: (r#"livenessProbe:
  httpGet:
    path: /health
    port: 8080
  initialDelaySeconds: 10
  periodSeconds: 5"#)@,
                description: Some("⚡ EXAM TIP: Most common liveness probe type"@),
            },
            ConceptView {
                title: "Startup probe (for slow-starting containers)"@,
                command: (r#"startupProbe:
  httpGet:
    path: /startup
    port: 8080
  failureThreshold: 30
  periodSeconds: 10"#)@,
                description: Some("Gives container up to 300s to start before liveness checks"@),
            },
        ],
    }
}

/// The category "Deployments & Rollouts".
pub open spec fn deployments_and_rollouts() -> CategoryView {
    CategoryView {
        name: "🔄 Deployments & Rollouts"@,
        concepts: seq![
            ConceptView {
                title: "View rollout history"@,
                command: (r#"k rollout history deploy DEPLOY_NAME
k rollout history deploy DEPLOY_NAME --revision 2"#)@,
                description: None,
            },
            ConceptView {
                title: "Rollback to previous version"@,
                command: "k rollout undo deploy DEPLOY_NAME"@,
                description: Some("⚡ EXAM TIP: Quick fix for bad deployments"@),
            },
            ConceptView {
                title: "Rollback to specific revision"@,
                command: "k rollout undo deploy DEPLOY_NAME --to-revision=3"@,
                description: None,
            },
            ConceptView {
                title: "Check rollout status"@,
                command: "k rollout status deploy DEPLOY_NAME"@,
                description: Some("Wait for rollout to complete"@),
            },
            ConceptView {
                title: "Pause rollout"@,
                command: "k rollout pause deploy/myapp"@,
                description: Some("⚡ EXAM TIP: Pause, make changes, resume for atomic update"@),
            },
            ConceptView {
                title: "Resume paused rollout"@,
                command: "k rollout resume deploy/myapp"@,
                description: None,
            },
            ConceptView {
                title: "Restart deployment (trigger rollout)"@,
                command: "k rollout restart deploy DEPLOY_NAME"@,
                description: Some("Force pod recreation without config changes"@),
            },
            ConceptView {
                title: "Get ReplicaSets with images"@,
                command: "k get rs -o wide | grep DEPLOY_NAME"@,
                description: Some("See old and new ReplicaSets during rollout"@),
            },
            ConceptView {
                title: "Patch deployment image"@,
                command: (r#"k patch deploy myapp -p '{"spec":{"template":{"spec":{"containers":[{"name":"myapp","image":"nginx:alpine"}]}}}}"#)@,
                description: Some("Fast JSON-based patching"@),
            },
        ],
    }
}

/// The category "Security & RBAC".
pub open spec fn security_and_rbac() -> CategoryView {
    CategoryView {
        name: "🔒 Security & RBAC"@,
        concepts: seq![
            ConceptView {
                title: "SecurityContext - run as user"@,
                command: (r#"securityContext:
  runAsUser: 1001
  runAsGroup: 3000
  fsGroup: 2000
  allowPrivilegeEscalation: false
  capabilities:
    drop: ["ALL"]
    add: ["NET_ADMIN"]"#)@,
                description: Some("⚡ EXAM TIP: Container-level security settings"@),
            },
            ConceptView {
                title: "Container-level security context"@,
                command: (r#"containers:
- name: container
  image: nginx
  securityContext:
    allowPrivilegeEscalation: false
    privileged: false"#)@,
                description: Some("Minimal security settings"@),
            },
            ConceptView {
                title: "Create ServiceAccount"@,
                command: "k create sa backend-sa"@,
                description: None,
            },
            ConceptView {
                title: "Set ServiceAccount for deployment"@,
                command: (r#"spec:
  template:
    spec:
      serviceAccountName: my-sa"#)@,
                description: Some("⚡ EXAM TIP: Pods recreate when SA changes in deployment"@),
            },
            ConceptView {
                title: "Create Role"@,
                command: "k create role pod-reader --verb=get,list,watch --resource=pods"@,
                description: Some("Namespace-scoped permissions"@),
            },
            ConceptView {
                title: "Create RoleBinding"@,
                command: (r#"k create rolebinding pod-reader-binding \
  --role=pod-reader \
  --serviceaccount=default:backend-sa"#)@,
                description: Some("Bind role to ServiceAccount"@),
            },
            ConceptView {
                title: "Create ClusterRole"@,
                command: "k create clusterrole node-reader --verb=get,list --resource=nodes"@,
                description: Some("Cluster-wide permissions"@),
            },
            ConceptView {
                title: "Create ClusterRoleBinding"@,
                command: "k create clusterrolebinding node-reader-binding --clusterrole=node-reader --serviceaccount=default:my-sa"@,
                description: None,
            },
        ],
    }
}

/// The category "Services & Networking".
pub open spec fn services_and_networking() -> CategoryView {
    CategoryView {
        name: "🌐 Services & Networking"@,
        concepts: seq![
            ConceptView {
                title: "Expose pod as ClusterIP"@,
                command: "k expose pod POD_NAME --name SERVICE_NAME --port 3333 --target-port 80"@,
                description: Some("port: service port, target-port: container port"@),
            },
            ConceptView {
                title: "Expose deployment"@,
                command: "k expose deployment api-deploy --port=80 --target-port=80 --name=api-svc --type=ClusterIP"@,
                description: None,
            },
            ConceptView {
                title: "Create ClusterIP service manifest"@,
                command: "k create service clusterip SERVICE_NAME --tcp 3333:80 --dry-run=client -oyaml"@,
                description: Some("Then edit selector to match pods"@),
            },
            ConceptView {
                title: "Create NodePort service"@,
                command: "k create service nodeport myapp --tcp=8080:80 --node-port=30100"@,
                description: None,
            },
            ConceptView {
                title: "Change service type to NodePort"@,
                command: (r#"# k edit svc SERVICE_NAME
spec:
  type: NodePort
  ports:
  - port: 8080
    targetPort: 80
    nodePort: 30100"#)@,
                description: Some("Edit existing service to expose externally"@),
            },
            ConceptView {
                title: "Create ExternalName service"@,
                command: (r#"apiVersion: v1
kind: Service
metadata:
  name: external-api
spec:
  type: ExternalName
  externalName: api.example.com"#)@,
                description: Some("⚡ EXAM TIP: DNS CNAME redirect, no ports/selectors!"@),
            },
            ConceptView {
                title: "Check service endpoints"@,
                command: (r#"k get endpointslice
k describe svc SERVICE_NAME | grep Endpoints"#)@,
                description: Some("Verify pods are backing the service"@),
            },
            ConceptView {
                title: "Get service details"@,
                command: "k get svc SERVICE_NAME -o wide"@,
                description: None,
            },
            ConceptView {
                title: "NetworkPolicy - egress restriction"@,
                command: (r#"apiVersion: networking.k8s.io/v1
kind: NetworkPolicy
metadata:
  name: np1
  namespace: default
spec:
  podSelector:
    matchLabels:
      id: frontend
  policyTypes:
  - Egress
  egress:
  - to:
    - podSelector:
        matchLabels:
          id: api
  - ports:
    - port: 53
      protocol: UDP
    - port: 53
      protocol: TCP"#)@,
                description: Some("⚡ EXAM TIP: Allow DNS (port 53) or pods can't resolve names!"@),
            },
            ConceptView {
                title: "NetworkPolicy - ingress restriction"@,
                command: (r#"apiVersion: networking.k8s.io/v1
kind: NetworkPolicy
metadata:
  name: db-allow
spec:
  podSelector:
    matchLabels:
      app: db
  ingress:
  - from:
    - podSelector:
        matchLabels:
          role: backend
    ports:
    - protocol: TCP
      port: 5432
  policyTypes:
  - Ingress"#)@,
                description: Some("Only allow backend pods to connect to db"@),
            },
            ConceptView {
                title: "Fix NetworkPolicy by labeling pod"@,
                command: "k label pod worker role=backend --overwrite"@,
                description: Some("⚡ EXAM TIP: Often told NOT to modify NP, label pods instead!"@),
            },
            ConceptView {
                title: "Create Ingress"@,
                command: (r#"apiVersion: networking.k8s.io/v1
kind: Ingress
metadata:
  name: web-ingress
spec:
  rules:
  - http:
      paths:
      - path: /app
        pathType: Prefix
        backend:
          service:
            name: api-svc
            port:
              number: 80"#)@,
                description: Some("Route HTTP /app path to service"@),
            },
            ConceptView {
                title: "Create Ingress imperatively"@,
                command: (r#"k create ingress NAME --rule="host/path=service:80" -oyaml --dry-run=client"#)@,
                description: None,
            },
        ],
    }
}

/// The category "Storage".
pub open spec fn storage() -> CategoryView {
    CategoryView {
        name: "💾 Storage"@,
        concepts: seq![
            ConceptView {
                title: "PersistentVolume manifest"@,
                command: (r#"apiVersion: v1
kind: PersistentVolume
metadata:
  name: my-pv
spec:
  capacity:
    storage: 2Gi
  accessModes:
    - ReadWriteOnce
  hostPath:
    path: "/Volumes/Data""#)@,
                description: None,
            },
            ConceptView {
                title: "PersistentVolumeClaim manifest"@,
                command: (r#"apiVersion: v1
kind: PersistentVolumeClaim
metadata:
  name: my-pvc
  namespace: default
spec:
  accessModes:
    - ReadWriteOnce
  resources:
    requests:
      storage: 2Gi"#)@,
                description: Some("Request persistent storage from cluster"@),
            },
            ConceptView {
                title: "Mount PVC in deployment"@,
                command: (r#"spec:
  volumes:
  - name: data
    persistentVolumeClaim:
      claimName: my-pvc
  containers:
  - name: container
    volumeMounts:
    - name: data
      mountPath: /tmp/project-data"#)@,
                description: Some("⚡ EXAM TIP: Define volume at spec level, mount in container"@),
            },
            ConceptView {
                title: "EmptyDir volume (temporary)"@,
                command: (r#"volumes:
- name: shared-data
  emptyDir: {}
containers:
- name: app
  volumeMounts:
  - mountPath: /shared
    name: shared-data"#)@,
                description: Some("Shared storage between containers, deleted with pod"@),
            },
            ConceptView {
                title: "HostPath volume"@,
                command: (r#"volumes:
- name: host-volume
  hostPath:
    path: /data
    type: Directory"#)@,
                description: Some("Mount directory from node filesystem"@),
            },
            ConceptView {
                title: "StorageClass with Retain policy"@,
                command: (r#"apiVersion: storage.k8s.io/v1
kind: StorageClass
metadata:
  name: my-storage-class
provisioner: my-provisioner
reclaimPolicy: Retain"#)@,
                description: Some("Retain: PV not deleted when PVC deleted"@),
            },
            ConceptView {
                title: "Check PVC status"@,
                command: "k get pvc"@,
                description: Some("Verify PVC is Bound before using"@),
            },
        ],
    }
}

/// The category "InitContainers & Sidecars".
pub open spec fn init_containers_and_sidecars() -> CategoryView {
    CategoryView {
        name: "🚀 InitContainers & Sidecars"@,
        concepts: seq![
            ConceptView {
                title: "InitContainer example"@,
                command: (r#"initContainers:
- name: init-con
  image: busybox:1.31.0
  command: ['sh', '-c', 'echo "content" > /tmp/web-content/index.html']
  volumeMounts:
  - name: web-content
    mountPath: /tmp/web-content"#)@,
                description: Some("Runs before main containers, must complete successfully"@),
            },
            ConceptView {
                title: "Sidecar logging container"@,
                command: (r#"initContainers:
  - name: init
    image: bash:5.0.11
    command: ['bash', '-c', 'echo init > /var/log/cleaner/cleaner.log']
    volumeMounts:
      - name: logs
        mountPath: /var/log/cleaner
  - name: logger
    image: bash:5.0.11
    restartPolicy: Always
    command: ['bash', '-c', 'tail -f /var/log/cleaner/cleaner.log']
    volumeMounts:
      - name: logs
        mountPath: /var/log/cleaner"#)@,
                description: Some("Sidecar that tails log file and outputs to stdout"@),
            },
            ConceptView {
                title: "Multi-container pod with shared volume"@,
                command: (r#"apiVersion: v1
kind: Pod
metadata:
  name: multi
spec:
  containers:
  - name: app
    image: nginx
    volumeMounts:
    - mountPath: /shared
      name: shared-data
  - name: sidecar
    image: busybox
    command: ["/bin/sh","-c","while true; do ls /shared; sleep 5; done"]
    volumeMounts:
    - mountPath: /shared
      name: shared-data
  volumes:
  - name: shared-data
    emptyDir: {}"#)@,
                description: Some("⚡ EXAM TIP: Common pattern for log collection, monitoring"@),
            },
        ],
    }
}

/// The category "Resource Management".
pub open spec fn resource_management() -> CategoryView {
    CategoryView {
        name: "⚡ Resource Management"@,
        concepts: seq![
            ConceptView {
                title: "Resource requests and limits"@,
                command: (r#"containers:
- name: container
  image: nginx
  resources:
    requests:
      cpu: "100m"
      memory: "128Mi"
    limits:
      cpu: "200m"
      memory: "256Mi""#)@,
                description: Some("requests: guaranteed, limits: maximum allowed"@),
            },
            ConceptView {
                title: "ResourceQuota for namespace"@,
                command: (r#"k create quota team-a \
  --hard=cpu=2,memory=2Gi,pods=10 -n dev"#)@,
                description: Some("Limit total resources in namespace"@),
            },
            ConceptView {
                title: "LimitRange for namespace"@,
                command: (r#"apiVersion: v1
kind: LimitRange
metadata:
  name: mem-limit-range
spec:
  limits:
  - default:
      memory: 512Mi
    defaultRequest:
      memory: 256Mi
    type: Container"#)@,
                description: Some("Set default limits for pods without explicit limits"@),
            },
            ConceptView {
                title: "Force replace resource"@,
                command: "k replace -f manifest.yaml --force --grace-period=0"@,
                description: Some("Delete and recreate resource immediately"@),
            },
        ],
    }
}

/// The category "Labels & Annotations".
pub open spec fn labels_and_annotations() -> CategoryView {
    CategoryView {
        name: "🏷️ Labels & Annotations"@,
        concepts: seq![
            ConceptView {
                title: "Label multiple pods by selector"@,
                command: (r#"k label pod -l "type in (worker,runner)" protected=true"#)@,
                description: Some("Bulk label pods matching selector"@),
            },
            ConceptView {
                title: "Remove label"@,
                command: "k label pod myapp version-"@,
                description: Some("Trailing dash removes label"@),
            },
            ConceptView {
                title: "Annotate pods by selector"@,
                command: (r#"k annotate pod -l protected=true protected="do not delete this pod""#)@,
                description: Some("Add metadata annotation to pods"@),
            },
            ConceptView {
                title: "Show labels"@,
                command: "k get pod --show-labels"@,
                description: None,
            },
            ConceptView {
                title: "Filter by label"@,
                command: (r#"k get pod -l app=frontend
k get pod -l 'env in (prod,staging)'"#)@,
                description: Some("Query resources by label selectors"@),
            },
            ConceptView {
                title: "Custom columns with labels"@,
                command: "k get pod -o custom-columns=NAME:.metadata.name,LABELS:.metadata.labels"@,
                description: None,
            },
        ],
    }
}

/// The category "Container Tools".
pub open spec fn container_tools() -> CategoryView {
    CategoryView {
        name: "🐳 Container Tools"@,
        concepts: seq![
            ConceptView {
                title: "Docker - build and push"@,
                command: (r#"sudo docker build -t registry.example.com:5000/image:tag .
sudo docker push registry.example.com:5000/image:tag"#)@,
                description: None,
            },
            ConceptView {
                title: "Docker - tag image"@,
                command: "docker tag myapp:1.0 myrepo/myapp:1.0"@,
                description: None,
            },
            ConceptView {
                title: "Docker - save as tar"@,
                command: "docker save myrepo/myapp:1.0 -o myimage.tar"@,
                description: Some("⚡ EXAM TIP: Export image for transfer"@),
            },
            ConceptView {
                title: "Docker - load from tar"@,
                command: "docker load -i myimage.tar"@,
                description: None,
            },
            ConceptView {
                title: "Podman - run detached"@,
                command: "sudo podman run -d --name CONTAINER_NAME IMAGE"@,
                description: None,
            },
            ConceptView {
                title: "Podman - get logs"@,
                command: "sudo podman logs CONTAINER_NAME > /opt/logs.txt"@,
                description: None,
            },
        ],
    }
}

/// The category "Kubectl Explain Cheat Sheet".
pub open spec fn kubectl_explain() -> CategoryView {
    CategoryView {
        name: "📚 Kubectl Explain Cheat Sheet"@,
        concepts: seq![
            ConceptView {
                title: "Basic explain usage"@,
                command: (r#"k explain pod
k explain pod.spec
k explain pod.spec.containers"#)@,
                description: Some("Navigate resource structure hierarchically"@),
            },
            ConceptView {
                title: "Recursive explain"@,
                command: (r#"k explain pod.spec --recursive
k explain pod.spec --recursive | grep -i volume"#)@,
                description: Some("Show all nested fields at once"@),
            },
            ConceptView {
                title: "Common probe paths"@,
                command: (r#"k explain pod.spec.containers.readinessProbe
k explain pod.spec.containers.livenessProbe
k explain pod.spec.containers.startupProbe"#)@,
                description: None,
            },
            ConceptView {
                title: "Common resource paths"@,
                command: (r#"k explain pod.spec.containers.resources
k explain pod.spec.containers.securityContext
k explain pod.spec.volumes
k explain pod.spec.initContainers"#)@,
                description: None,
            },
            ConceptView {
                title: "Job/CronJob paths"@,
                command: (r#"k explain job.spec.completions
k explain job.spec.parallelism
k explain cronjob.spec.schedule"#)@,
                description: None,
            },
            ConceptView {
                title: "Network/Storage paths"@,
                command: (r#"k explain networkpolicy.spec.egress
k explain networkpolicy.spec.ingress
k explain pv.spec
k explain pvc.spec"#)@,
                description: None,
            },
        ],
    }
}

/// The category "Advanced Exam Patterns".
pub open spec fn advanced_exam_patterns() -> CategoryView {
    CategoryView {
        name: "🎯 Advanced Exam Patterns"@,
        concepts: seq![
            ConceptView {
                title: "Export pod to different namespace"@,
                command: (r#"k -n SOURCE_NS get pod POD_NAME -o yaml > pod.yaml
# Edit: change namespace, remove status, nodeName, token volumes
k -n TARGET_NS create -f pod.yaml
k -n SOURCE_NS delete pod POD_NAME --force --grace-period=0"#)@,
                description: Some("⚡ EXAM TIP: Move pods between namespaces"@),
            },
            ConceptView {
                title: "Get all resources in namespace"@,
                command: "k get all -n NAMESPACE"@,
                description: Some("Quick overview of pods, services, deployments, etc."@),
            },
            ConceptView {
                title: "Delete all resources in namespace"@,
                command: "k delete all --all -n dev"@,
                description: Some("⚠️ Careful: deletes everything in namespace!"@),
            },
            ConceptView {
                title: "Get node IPs"@,
                command: "k get nodes -o wide"@,
                description: Some("Shows internal/external IPs, OS, kernel version"@),
            },
            ConceptView {
                title: "Drain node for maintenance"@,
                command: "k drain NODE --ignore-daemonsets --force --delete-emptydir-data"@,
                description: Some("Evict pods from node safely"@),
            },
            ConceptView {
                title: "Uncordon node"@,
                command: "k uncordon NODE"@,
                description: Some("Allow pod scheduling again"@),
            },
            ConceptView {
                title: "Taint node"@,
                command: (r#"k taint nodes node1 key=value:NoSchedule
k taint nodes node1 key=value:NoSchedule-"#)@,
                description: Some("Add/remove node taint (trailing - removes)"@),
            },
            ConceptView {
                title: "Toleration for tainted nodes"@,
                command: (r#"tolerations:
- key: "key"
  operator: "Equal"
  value: "value"
  effect: "NoSchedule""#)@,
                description: Some("Allow pod to schedule on tainted nodes"@),
            },
            ConceptView {
                title: "Get API resources"@,
                command: "k api-resources"@,
                description: Some("List all resource types in cluster"@),
            },
            ConceptView {
                title: "Get API versions"@,
                command: "k api-versions"@,
                description: Some("Useful when fixing deprecated APIs"@),
            },
            ConceptView {
                title: "Convert deprecated API"@,
                command: "k convert -f old.yaml --output-version apps/v1"@,
                description: Some("⚡ EXAM TIP: Update old extensions/v1beta1 to apps/v1"@),
            },
            ConceptView {
                title: "Canary deployment pattern"@,
                command: (r#"k create deploy web --image=nginx:1.23 --replicas=3
k create deploy web-canary --image=nginx:1.25 --replicas=1
# Both use same service selector (e.g., app: web)"#)@,
                description: Some("25% traffic to new version (1 of 4 pods)"@),
            },
            ConceptView {
                title: "Save cluster resources to files"@,
                command: (r#"k get ns > /opt/course/1/namespaces
k get all -o yaml > /opt/backup.yaml"#)@,
                description: Some("Export for backup or review"@),
            },
            ConceptView {
                title: "Field selector queries"@,
                command: (r#"k get pods --field-selector status.phase=Running
k get pods --field-selector metadata.namespace=default"#)@,
                description: Some("Filter by resource fields instead of labels"@),
            },
        ],
    }
}

/// The category "Time-Saving Aliases".
pub open spec fn time_saving_aliases() -> CategoryView {
    CategoryView {
        name: "⚡ Time-Saving Aliases"@,
        concepts: seq![
            ConceptView {
                title: "Essential kubectl aliases"@,
                command: (r#"alias k=kubectl
alias kgp='kubectl get pods'
alias kgs='kubectl get svc'
alias kgd='kubectl get deploy'
alias kdp='kubectl describe pod'
alias kds='kubectl describe svc'
alias kdd='kubectl describe deploy'
alias kaf='kubectl apply -f'
alias kdf='kubectl delete -f'
alias ksys='kubectl -n kube-system'"#)@,
                description: Some("⚡ EXAM TIP: Set these at start of exam in ~/.bashrc"@),
            },
            ConceptView {
                title: "Enable kubectl autocompletion"@,
                command: (r#"source <(kubectl completion bash)
echo "source <(kubectl completion bash)" >> ~/.bashrc
complete -F __start_kubectl k"#)@,
                description: Some("Tab completion for kubectl commands"@),
            },
            ConceptView {
                title: "Set default editor"@,
                command: (r#"export KUBE_EDITOR=nano
# or
export KUBE_EDITOR=vi"#)@,
                description: Some("Choose editor for kubectl edit"@),
            },
        ],
    }
}

} // verus!
